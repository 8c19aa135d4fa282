//! The IPv4 configuration that the network stack acquired, and the lines
//! that show it to an operator. The fetch reads it and changes nothing.

use vstd::prelude::*;
use crate::numtext::{dec_digits, push_dec_digits};
use crate::pipeline::Ipv4;

verus! {

/// An acquired IPv4 configuration.
#[derive(Debug, PartialEq, Eq)]
pub struct NetworkConfig {
    pub address: Ipv4,
    /// The length of the network prefix, in bits.
    pub prefix_len: u8,
    pub gateway: Option<Ipv4>,
    pub dns_servers: Vec<Ipv4>,
}

/// The four bytes of an address, the first of them first.
pub open spec fn octets(a: Ipv4) -> (nat, nat, nat, nat) {
    (
        (a.0 / 16777216) as nat,
        ((a.0 / 65536) % 256) as nat,
        ((a.0 / 256) % 256) as nat,
        (a.0 % 256) as nat,
    )
}

/// An address in dotted decimal.
pub open spec fn dotted(a: Ipv4) -> Seq<char> {
    dec_digits(octets(a).0) + seq!['.'] + dec_digits(octets(a).1) + seq!['.'] + dec_digits(
        octets(a).2,
    ) + seq!['.'] + dec_digits(octets(a).3)
}

/// The line that shows the device's own address with its prefix length.
pub open spec fn address_line(c: NetworkConfig) -> Seq<char> {
    "  - local ip: "@ + dotted(c.address) + seq!['/'] + dec_digits(c.prefix_len as nat)
}

/// The line that shows the gateway, or that there is none.
pub open spec fn gateway_line(c: NetworkConfig) -> Seq<char> {
    match c.gateway {
        Some(g) => "  - default gateway: Some("@ + dotted(g) + seq![')'],
        None => "  - default gateway: None"@,
    }
}

/// The line that shows one name server.
pub open spec fn server_line(a: Ipv4) -> Seq<char> {
    "    - "@ + dotted(a)
}

/// All the lines: the address, the gateway, a heading, and one line for each
/// name server in its order.
pub open spec fn network_lines(c: NetworkConfig) -> Seq<Seq<char>> {
    Seq::new(
        3 + c.dns_servers@.len(),
        |i: int|
            if i == 0 {
                address_line(c)
            } else if i == 1 {
                gateway_line(c)
            } else if i == 2 {
                "  - dns servers:"@
            } else {
                server_line(c.dns_servers@[i - 3])
            },
    )
}

/// Appends an address in dotted decimal.
pub fn push_dotted(out: &mut String, a: Ipv4)
    ensures
        final(out)@ == old(out)@ + dotted(a),
{
    proof {
        reveal_strlit(".");
    }
    push_dec_digits(out, a.0 / 16777216);
    out.append(".");
    push_dec_digits(out, (a.0 / 65536) % 256);
    out.append(".");
    push_dec_digits(out, (a.0 / 256) % 256);
    out.append(".");
    push_dec_digits(out, a.0 % 256);
    assert(final(out)@ =~= old(out)@ + dotted(a));
}

/// Renders the lines that show a configuration.
pub fn describe_network(config: &NetworkConfig) -> (lines: Vec<String>)
    ensures
        lines@.len() == 3 + config.dns_servers@.len(),
        forall|i: int| 0 <= i < lines@.len() ==> (#[trigger] lines@[i])@ == network_lines(*config)[i],
{
    let mut lines: Vec<String> = Vec::new();

    let mut first = String::from_str("  - local ip: ");
    push_dotted(&mut first, config.address);
    proof {
        reveal_strlit("/");
    }
    first.append("/");
    let prefix: u32 = config.prefix_len as u32;
    push_dec_digits(&mut first, prefix);
    assert(first@ =~= address_line(*config));
    lines.push(first);

    let second = match config.gateway {
        Some(g) => {
            let mut line = String::from_str("  - default gateway: Some(");
            push_dotted(&mut line, g);
            proof {
                reveal_strlit(")");
            }
            line.append(")");
            assert(line@ =~= gateway_line(*config));
            line
        },
        None => String::from_str("  - default gateway: None"),
    };
    lines.push(second);
    lines.push(String::from_str("  - dns servers:"));

    let mut i: usize = 0;
    while i < config.dns_servers.len()
        invariant
            i <= config.dns_servers.len(),
            lines@.len() == 3 + i,
            forall|k: int| 0 <= k < lines@.len() ==> (#[trigger] lines@[k])@ == network_lines(*config)[k],
        decreases config.dns_servers.len() - i,
    {
        let mut line = String::from_str("    - ");
        push_dotted(&mut line, config.dns_servers[i]);
        assert(line@ == network_lines(*config)[3 + i]);
        lines.push(line);
        i = i + 1;
    }
    lines
}

} // verus!
