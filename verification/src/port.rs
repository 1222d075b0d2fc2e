//! TCP ports on the command line and in connection addresses.

use vstd::prelude::*;

use crate::decimal;

verus! {

/// The lowest port that can be asked for.
pub const PORT_MIN: usize = 1;

/// The highest port that can be asked for.
pub const PORT_MAX: usize = 65535;

/// What is said of an argument that is no number.
pub open spec fn not_a_port_message(argument: Seq<char>) -> Seq<char> {
    "`"@ + argument + "` isn't a port number"@
}

/// What is said of a number that is no port.
pub open spec fn out_of_range_message() -> Seq<char> {
    "port not in range "@ + decimal::decimal(PORT_MIN as nat) + "-"@
        + decimal::decimal(PORT_MAX as nat)
}

/// The port that an argument asks for, or what is wrong with the argument.
pub open spec fn port_argument(argument: Seq<char>) -> Result<nat, Seq<char>> {
    match decimal::parsed(argument, usize::MAX as nat) {
        None => Err(not_a_port_message(argument)),
        Some(n) => if PORT_MIN <= n <= PORT_MAX {
            Ok(n)
        } else {
            Err(out_of_range_message())
        },
    }
}

/// Reads a port from a command line argument.
pub fn port_in_range(s: &str) -> (port: Result<u16, String>)
    ensures
        match port {
            Ok(port) => port_argument(s@) == Ok::<nat, Seq<char>>(port as nat),
            Err(message) => port_argument(s@) == Err::<nat, Seq<char>>(message@),
        },
        port matches Ok(port) ==> 1 <= port && decimal::parsed(s@, usize::MAX as nat) == Some(
            port as nat,
        ),
{
    match decimal::parse_usize(s) {
        None => Err(String::from_str("`").concat(s).concat("` isn't a port number")),
        Some(port) => if PORT_MIN <= port && port <= PORT_MAX {
            Ok(port as u16)
        } else {
            let lowest = decimal::to_decimal(PORT_MIN as u64);
            let highest = decimal::to_decimal(PORT_MAX as u64);
            Err(
                String::from_str("port not in range ").concat(lowest.as_str()).concat("-").concat(
                    highest.as_str(),
                ),
            )
        },
    }
}

/// The address of `port` on `host`.
pub open spec fn url(host: Seq<char>, port: nat) -> Seq<char> {
    host + ":"@ + decimal::decimal(port)
}

/// Writes the address of `port` on `host`.
pub fn connection_url(host: &str, port: u16) -> (address: String)
    ensures
        address@ == url(host@, port as nat),
{
    let port = decimal::to_decimal(port as u64);
    String::from_str(host).concat(":").concat(port.as_str())
}

/// Every port has an argument that asks for it: its own decimal text.
pub proof fn law_port_argument_of_decimal(port: nat)
    requires
        PORT_MIN <= port <= PORT_MAX,
    ensures
        port_argument(decimal::decimal(port)) == Ok::<nat, Seq<char>>(port),
{
    decimal::law_parsed_decimal(port, usize::MAX as nat);
}

/// An argument only ever asks for a port that a `u16` holds and that is not zero.
pub proof fn law_port_argument_in_range(argument: Seq<char>)
    ensures
        port_argument(argument) matches Ok(port) ==> 0 < port <= u16::MAX,
{
}

/// The port of an address can be read back: what follows the host and the colon
/// is an argument that asks for the same port.
pub proof fn law_url_port(host: Seq<char>, port: nat)
    requires
        PORT_MIN <= port <= PORT_MAX,
    ensures
        url(host, port).take(host.len() as int) == host,
        port_argument(url(host, port).skip(host.len() as int + 1)) == Ok::<nat, Seq<char>>(port),
{
    reveal_strlit(":");
    assert(url(host, port).take(host.len() as int) =~= host);
    assert(url(host, port).skip(host.len() as int + 1) =~= decimal::decimal(port));
    law_port_argument_of_decimal(port);
}

/// An argument asks for a port only if it reads as that very number, and a number from
/// 1 to 65535 is always the port that is asked for.
pub proof fn law_port_argument_is_its_number(argument: Seq<char>, port: nat)
    ensures
        port_argument(argument) == Ok::<nat, Seq<char>>(port) <==> decimal::parsed(
            argument,
            usize::MAX as nat,
        ) == Some(port) && 1 <= port <= 65535,
{
}

/// A number that is no port is refused, and the range is named.
pub proof fn law_port_argument_refuses_number(argument: Seq<char>, n: nat)
    requires
        decimal::parsed(argument, usize::MAX as nat) == Some(n),
        n == 0 || n > 65535,
    ensures
        port_argument(argument) == Err::<nat, Seq<char>>("port not in range 1-65535"@),
{
    reveal_strlit("port not in range ");
    reveal_strlit("-");
    reveal_strlit("port not in range 1-65535");
    reveal_with_fuel(decimal::decimal, 6);
    assert(out_of_range_message() =~= "port not in range 1-65535"@);
}

/// The decimal text of a number that is no port is refused.
pub proof fn law_port_argument_refuses_decimal(n: nat)
    requires
        n == 0 || 65535 < n <= usize::MAX,
    ensures
        port_argument(decimal::decimal(n)) is Err,
{
    decimal::law_parsed_decimal(n, usize::MAX as nat);
}

/// A text that is no number is refused with the whole of it between backquotes.
pub proof fn law_port_argument_quotes_text(argument: Seq<char>)
    requires
        decimal::parsed(argument, usize::MAX as nat) is None,
    ensures
        port_argument(argument) matches Err(message) && message.len() == argument.len() + 22
            && message[0] == '`' && message.subrange(1, argument.len() as int + 1) == argument
            && message.skip(argument.len() as int + 1) == "` isn't a port number"@,
{
    reveal_strlit("`");
    reveal_strlit("` isn't a port number");
    let message = not_a_port_message(argument);
    assert(message.subrange(1, argument.len() as int + 1) =~= argument);
    assert(message.skip(argument.len() as int + 1) =~= "` isn't a port number"@);
}

/// An address is the whole host, one colon and the port in decimal.
pub proof fn law_url_parts(host: Seq<char>, port: nat)
    ensures
        url(host, port).take(host.len() as int) == host,
        url(host, port)[host.len() as int] == ':',
        url(host, port).skip(host.len() as int + 1) == decimal::decimal(port),
{
    reveal_strlit(":");
    assert(url(host, port).take(host.len() as int) =~= host);
    assert(url(host, port).skip(host.len() as int + 1) =~= decimal::decimal(port));
}

} // verus!
