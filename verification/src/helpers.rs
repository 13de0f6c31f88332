//! What the session is started with: the listening port, the terminal's
//! path and the addresses to choose from.
//!
//! Each function here judges a value that the caller has read: a line of
//! input, the output of a program, the list of network interfaces.

use vstd::prelude::*;
use crate::http::{decode_lossy, lossy_text};
use crate::text::{parse_number, parsed_number, str_eq, text_of, texts_of, trim, trimmed};

verus! {

/// The port that is listened on when the operator names none.
pub const DEFAULT_PORT: u16 = 4444;

/// Why a port was refused.
#[derive(Clone, Copy, Debug, PartialEq, Eq, Structural)]
pub enum PortError {
    /// The number is zero.
    OutOfRange,
    /// The text is not a number that a port can be.
    Invalid,
}

/// The port that a line of input names. White space around it does not
/// count; an empty line names the default.
pub open spec fn port_of(input: Seq<char>) -> Result<u16, PortError> {
    let text = trimmed(input);
    if text.len() == 0 {
        Ok(DEFAULT_PORT)
    } else {
        match parsed_number(text, u16::MAX as nat) {
            Some(port) => if port > 0 {
                Ok(port as u16)
            } else {
                Err(PortError::OutOfRange)
            },
            None => Err(PortError::Invalid),
        }
    }
}

/// Reads the listening port from a line of input.
pub fn port_input(input: &str) -> (r: Result<u16, PortError>)
    ensures
        r == port_of(input@),
{
    let text = trim(input);
    if text.as_str().unicode_len() == 0 {
        return Ok(DEFAULT_PORT);
    }
    match parse_number(text.as_str(), 65535) {
        Some(port) => if port > 0 {
            Ok(port as u16)
        } else {
            Err(PortError::OutOfRange)
        },
        None => Err(PortError::Invalid),
    }
}

/// The terminal's path as the system call names it: any name but the empty one.
pub open spec fn tty_of_name(name: Option<Seq<char>>) -> Option<Seq<char>> {
    match name {
        Some(n) => if n.len() > 0 {
            Some(n)
        } else {
            None
        },
        None => None,
    }
}

/// The terminal's path as the text that the `tty` program printed gives it:
/// the text without the white space around it, unless it is empty or says
/// that there is no terminal.
pub open spec fn tty_of_text(printed: Seq<char>) -> Option<Seq<char>> {
    let path = trimmed(printed);
    if path.len() > 0 && path != "not a tty"@ {
        Some(path)
    } else {
        None
    }
}

/// Judges the name that the system call gave for the terminal.
pub fn tty_from_name(name: Option<&str>) -> (r: Option<String>)
    ensures
        text_of(r) == tty_of_name(
            match name {
                Some(n) => Some(n@),
                None => None,
            },
        ),
{
    match name {
        Some(n) => if n.unicode_len() > 0 {
            Some(n.to_owned())
        } else {
            None
        },
        None => None,
    }
}

/// Judges the text that the `tty` program printed.
pub fn tty_from_text(printed: &str) -> (r: Option<String>)
    ensures
        text_of(r) == tty_of_text(printed@),
{
    let path = trim(printed);
    if path.as_str().unicode_len() > 0 && !str_eq(path.as_str(), "not a tty") {
        Some(path)
    } else {
        None
    }
}

/// Judges what the `tty` program reported: nothing where it failed, else
/// what the text it printed, decoded leniently, gives.
pub fn get_tty_path(succeeded: bool, output: &[u8]) -> (r: Option<String>)
    ensures
        text_of(r) == (if succeeded {
            tty_of_text(lossy_text(output@))
        } else {
            None
        }),
{
    if succeeded {
        let printed = decode_lossy(output);
        tty_from_text(printed.as_str())
    } else {
        None
    }
}

/// One address of a network interface.
#[derive(Debug)]
pub struct InterfaceAddress {
    /// Whether it is an IPv4 address.
    pub ipv4: bool,
    /// The address as text.
    pub text: String,
}

/// One network interface.
#[derive(Debug)]
pub struct InterfaceInfo {
    /// Whether it is the loopback interface.
    pub loopback: bool,
    /// Its addresses.
    pub addresses: Vec<InterfaceAddress>,
}

/// The IPv4 addresses among `addresses`, in order.
pub open spec fn ipv4_texts(addresses: Seq<InterfaceAddress>) -> Seq<Seq<char>>
    decreases addresses.len(),
{
    if addresses.len() == 0 {
        Seq::empty()
    } else {
        let before = ipv4_texts(addresses.drop_last());
        if addresses.last().ipv4 {
            before.push(addresses.last().text@)
        } else {
            before
        }
    }
}

/// The addresses that can be listened on: the IPv4 addresses of every
/// interface that is not the loopback, in order.
pub open spec fn listen_addresses(interfaces: Seq<InterfaceInfo>) -> Seq<Seq<char>>
    decreases interfaces.len(),
{
    if interfaces.len() == 0 {
        Seq::empty()
    } else {
        let before = listen_addresses(interfaces.drop_last());
        if interfaces.last().loopback {
            before
        } else {
            before + ipv4_texts(interfaces.last().addresses@)
        }
    }
}

/// Lists the addresses that the operator can choose to listen on.
pub fn interface_selector(interfaces: &Vec<InterfaceInfo>) -> (r: Vec<String>)
    ensures
        texts_of(r@) == listen_addresses(interfaces@),
{
    let mut out: Vec<String> = Vec::new();
    let mut i: usize = 0;
    assert(interfaces@.take(0) =~= Seq::<InterfaceInfo>::empty());
    assert(texts_of(out@) =~= listen_addresses(interfaces@.take(0)));
    while i < interfaces.len()
        invariant
            i <= interfaces.len(),
            texts_of(out@) == listen_addresses(interfaces@.take(i as int)),
        decreases interfaces.len() - i,
    {
        let interface = &interfaces[i];
        let ghost upto = interfaces@.take(i + 1);
        assert(upto.drop_last() =~= interfaces@.take(i as int));
        assert(upto.last() == interfaces[i as int]);
        if !interface.loopback {
            let ghost base = texts_of(out@);
            let addresses = &interface.addresses;
            let mut j: usize = 0;
            assert(addresses@.take(0) =~= Seq::<InterfaceAddress>::empty());
            assert(texts_of(out@) =~= base + ipv4_texts(addresses@.take(0)));
            while j < addresses.len()
                invariant
                    j <= addresses.len(),
                    texts_of(out@) == base + ipv4_texts(addresses@.take(j as int)),
                decreases addresses.len() - j,
            {
                let ghost now = addresses@.take(j + 1);
                assert(now.drop_last() =~= addresses@.take(j as int));
                assert(now.last() == addresses[j as int]);
                if addresses[j].ipv4 {
                    let ghost shown = texts_of(out@);
                    out.push(addresses[j].text.clone());
                    assert(texts_of(out@) =~= shown.push(addresses[j as int].text@));
                    assert(texts_of(out@) =~= base + ipv4_texts(now));
                }
                j += 1;
            }
            assert(addresses@.take(j as int) =~= addresses@);
        }
        i += 1;
    }
    assert(interfaces@.take(i as int) =~= interfaces@);
    out
}

} // verus!
