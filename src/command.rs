use vstd::prelude::*;

verus! {

/// An external program to run, with its arguments.
pub struct Command {
    pub program: String,
    pub args: Vec<String>,
}

pub struct CommandView {
    pub program: Seq<char>,
    pub args: Seq<Seq<char>>,
}

impl View for Command {
    type V = CommandView;

    open spec fn view(&self) -> CommandView {
        CommandView { program: self.program@, args: self.args.deep_view() }
    }
}

pub open spec fn command_of(program: Seq<char>, args: Seq<Seq<char>>) -> CommandView {
    CommandView { program, args }
}

impl Command {
    pub fn new(program: &str) -> (r: Command)
        ensures
            r@ == command_of(program@, seq![]),
    {
        let r = Command { program: String::from_str(program), args: Vec::new() };
        assert(r@.args =~= Seq::<Seq<char>>::empty());
        r
    }

    /// Adds one argument at the end.
    pub fn arg(&mut self, a: &str)
        ensures
            final(self)@ == command_of(old(self)@.program, old(self)@.args.push(a@)),
    {
        self.args.push(String::from_str(a));
        assert(final(self)@.args =~= old(self)@.args.push(a@));
    }
}

/// `ip link set dev <iface> up`
pub fn set_interface_up(iface_name: &str) -> (r: Command)
    ensures
        r@ == command_of("ip"@, seq!["link"@, "set"@, "dev"@, iface_name@, "up"@]),
{
    let mut c = Command::new("ip");
    c.arg("link");
    c.arg("set");
    c.arg("dev");
    c.arg(iface_name);
    c.arg("up");
    assert(c@.args =~= seq!["link"@, "set"@, "dev"@, iface_name@, "up"@]);
    c
}

/// `ip link set dev <iface> down`
pub fn set_interface_down(iface_name: &str) -> (r: Command)
    ensures
        r@ == command_of("ip"@, seq!["link"@, "set"@, "dev"@, iface_name@, "down"@]),
{
    let mut c = Command::new("ip");
    c.arg("link");
    c.arg("set");
    c.arg("dev");
    c.arg(iface_name);
    c.arg("down");
    assert(c@.args =~= seq!["link"@, "set"@, "dev"@, iface_name@, "down"@]);
    c
}

/// `ip link delete <iface>`
pub fn delete_interface(iface_name: &str) -> (r: Command)
    ensures
        r@ == command_of("ip"@, seq!["link"@, "delete"@, iface_name@]),
{
    let mut c = Command::new("ip");
    c.arg("link");
    c.arg("delete");
    c.arg(iface_name);
    assert(c@.args =~= seq!["link"@, "delete"@, iface_name@]);
    c
}

/// `ip addr add <address>/<prefix> dev <iface>`
pub fn set_ipv4_address(iface_name: &str, address: &str, prefix: u8) -> (r: Command)
    ensures
        r@ == command_of(
            "ip"@,
            seq![
                "addr"@,
                "add"@,
                address@ + "/"@ + crate::text::decimal(prefix as nat),
                "dev"@,
                iface_name@,
            ],
        ),
{
    let mut c = Command::new("ip");
    c.arg("addr");
    c.arg("add");
    let mut a = String::from_str(address);
    a.append("/");
    crate::text::push_decimal(&mut a, prefix as u32);
    c.arg(a.as_str());
    c.arg("dev");
    c.arg(iface_name);
    assert(c@.args =~= seq!["addr"@, "add"@, address@ + "/"@ + crate::text::decimal(prefix as nat), "dev"@, iface_name@]);
    c
}

/// `ip addr flush dev <iface>`
pub fn flush_ipv4_addresses(iface_name: &str) -> (r: Command)
    ensures
        r@ == command_of("ip"@, seq!["addr"@, "flush"@, "dev"@, iface_name@]),
{
    let mut c = Command::new("ip");
    c.arg("addr");
    c.arg("flush");
    c.arg("dev");
    c.arg(iface_name);
    assert(c@.args =~= seq!["addr"@, "flush"@, "dev"@, iface_name@]);
    c
}

/// `ip route replace default via <gateway> dev <iface>`
pub fn set_default_gateway(gateway: &str, iface_name: &str) -> (r: Command)
    ensures
        r@ == command_of(
            "ip"@,
            seq!["route"@, "replace"@, "default"@, "via"@, gateway@, "dev"@, iface_name@],
        ),
{
    let mut c = Command::new("ip");
    c.arg("route");
    c.arg("replace");
    c.arg("default");
    c.arg("via");
    c.arg(gateway);
    c.arg("dev");
    c.arg(iface_name);
    assert(c@.args =~= seq!["route"@, "replace"@, "default"@, "via"@, gateway@, "dev"@, iface_name@]);
    c
}

} // verus!
