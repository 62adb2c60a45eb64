//! JSON encoding of network lists.
//!
//! The `networks` endpoint answers with a JSON array of objects of the
//! shape `{"ssid":...,"signalStrength":...,"security":...}`, in the
//! controller's order. The encoding, including string escaping, is
//! defined here as spec functions and implemented against them, so the
//! response body is pinned exactly.

use vstd::prelude::*;
use vstd::string::{StrSliceExecFns, StringExecFns};
use crate::network::Network;
use crate::text::{append_u8_decimal, hex_digit, push_char, spec_hex_digit, spec_u8_decimal};

verus! {

/// How a single character appears inside a JSON string literal:
/// quote and backslash get a backslash escape, the common control
/// characters get their short escapes, the remaining control
/// characters a `\u00..` escape, and everything else stands as itself.
pub open spec fn spec_escape_char(c: char) -> Seq<char> {
    if c == '"' {
        seq!['\\', '"']
    } else if c == '\\' {
        seq!['\\', '\\']
    } else if c == '\n' {
        seq!['\\', 'n']
    } else if c == '\r' {
        seq!['\\', 'r']
    } else if c == '\t' {
        seq!['\\', 't']
    } else if (c as u32) < 32 {
        seq!['\\', 'u', '0', '0', spec_hex_digit((c as u32 / 16) as nat), spec_hex_digit(
            (c as u32 % 16) as nat,
        )]
    } else {
        seq![c]
    }
}

/// A whole character sequence, escaped for a JSON string literal.
pub open spec fn spec_json_escaped(s: Seq<char>) -> Seq<char>
    decreases s.len(),
{
    if s.len() == 0 {
        Seq::<char>::empty()
    } else {
        spec_escape_char(s[0]) + spec_json_escaped(s.drop_first())
    }
}

/// The JSON text of one network object.
pub open spec fn spec_network_json(n: Network) -> Seq<char> {
    "{\"ssid\":\""@ + spec_json_escaped(n.ssid@) + "\",\"signalStrength\":"@ + spec_u8_decimal(
        n.signal_strength,
    ) + ",\"security\":\""@ + spec_json_escaped(n.security@) + "\"}"@
}

/// The comma-separated JSON texts of a list of networks.
pub open spec fn spec_networks_items(nets: Seq<Network>) -> Seq<char>
    decreases nets.len(),
{
    if nets.len() == 0 {
        Seq::<char>::empty()
    } else if nets.len() == 1 {
        spec_network_json(nets[0])
    } else {
        spec_network_json(nets[0]) + seq![','] + spec_networks_items(nets.drop_first())
    }
}

/// The JSON text of a list of networks: a JSON array of the objects,
/// in the given order.
pub open spec fn spec_networks_json(nets: Seq<Network>) -> Seq<char> {
    seq!['['] + spec_networks_items(nets) + seq![']']
}

/// Appends the escape of one character to `out`.
fn append_escaped_char(out: &mut String, c: char)
    ensures
        final(out)@ == old(out)@ + spec_escape_char(c),
{
    if c == '"' {
        push_char(out, '\\');
        push_char(out, '"');
    } else if c == '\\' {
        push_char(out, '\\');
        push_char(out, '\\');
    } else if c == '\n' {
        push_char(out, '\\');
        push_char(out, 'n');
    } else if c == '\r' {
        push_char(out, '\\');
        push_char(out, 'r');
    } else if c == '\t' {
        push_char(out, '\\');
        push_char(out, 't');
    } else if (c as u32) < 32 {
        let code: u32 = c as u32;
        push_char(out, '\\');
        push_char(out, 'u');
        push_char(out, '0');
        push_char(out, '0');
        push_char(out, hex_digit((code / 16) as u8));
        push_char(out, hex_digit((code % 16) as u8));
    } else {
        push_char(out, c);
    }
    proof {
        assert(out@ =~= old(out)@ + spec_escape_char(c));
    }
}

/// Appending one more character escapes it after the rest.
proof fn lemma_escaped_push(s: Seq<char>, c: char)
    ensures
        spec_json_escaped(s.push(c)) == spec_json_escaped(s) + spec_escape_char(c),
    decreases s.len(),
{
    if s.len() == 0 {
        assert(s.push(c).drop_first() =~= s);
        assert(spec_json_escaped(s.push(c)) =~= spec_json_escaped(s) + spec_escape_char(c));
    } else {
        assert(s.push(c).drop_first() =~= s.drop_first().push(c));
        lemma_escaped_push(s.drop_first(), c);
        assert(spec_json_escaped(s.push(c)) =~= spec_json_escaped(s) + spec_escape_char(c));
    }
}

/// Returns `s` escaped for use inside a JSON string literal.
pub fn json_escaped(s: &str) -> (r: String)
    ensures
        r@ == spec_json_escaped(s@),
{
    let n = s.unicode_len();
    let mut r = String::new();
    proof {
        assert(s@.take(0) =~= Seq::<char>::empty());
    }
    let mut i: usize = 0;
    while i < n
        invariant
            n == s@.len(),
            i <= n,
            r@ == spec_json_escaped(s@.take(i as int)),
        decreases n - i,
    {
        let c = s.get_char(i);
        append_escaped_char(&mut r, c);
        proof {
            assert(s@.take(i as int + 1) =~= s@.take(i as int).push(s@[i as int]));
            lemma_escaped_push(s@.take(i as int), s@[i as int]);
        }
        i = i + 1;
    }
    proof {
        assert(s@.take(n as int) =~= s@);
    }
    r
}

/// Appends the JSON object for one network to `out`.
fn append_network_json(out: &mut String, n: &Network)
    ensures
        final(out)@ == old(out)@ + spec_network_json(*n),
{
    out.append("{\"ssid\":\"");
    let escaped_ssid = json_escaped(n.ssid.as_str());
    out.append(escaped_ssid.as_str());
    out.append("\",\"signalStrength\":");
    append_u8_decimal(out, n.signal_strength);
    out.append(",\"security\":\"");
    let escaped_security = json_escaped(n.security.as_str());
    out.append(escaped_security.as_str());
    out.append("\"}");
    proof {
        assert(out@ =~= old(out)@ + spec_network_json(*n));
    }
}

/// One more network joins the items after a comma (or alone, if it is
/// the first).
proof fn lemma_items_push(nets: Seq<Network>, n: Network)
    ensures
        spec_networks_items(nets.push(n)) == if nets.len() == 0 {
            spec_network_json(n)
        } else {
            spec_networks_items(nets) + seq![','] + spec_network_json(n)
        },
    decreases nets.len(),
{
    if nets.len() == 0 {
        assert(nets.push(n).len() == 1);
        assert(nets.push(n)[0] == n);
    } else {
        assert(nets.push(n).drop_first() =~= nets.drop_first().push(n));
        lemma_items_push(nets.drop_first(), n);
        if nets.len() == 1 {
            assert(spec_networks_items(nets.push(n)) =~= spec_networks_items(nets) + seq![',']
                + spec_network_json(n));
        } else {
            assert(spec_networks_items(nets.push(n)) =~= spec_networks_items(nets) + seq![',']
                + spec_network_json(n));
        }
    }
}

/// Returns the JSON array for a list of networks, order preserved.
pub fn networks_to_json(nets: &Vec<Network>) -> (r: String)
    ensures
        r@ == spec_networks_json(nets@),
{
    let mut r = String::new();
    push_char(&mut r, '[');
    proof {
        assert(nets@.take(0) =~= Seq::<Network>::empty());
        assert(r@ =~= seq!['['] + spec_networks_items(nets@.take(0)));
    }
    let mut i: usize = 0;
    while i < nets.len()
        invariant
            i <= nets@.len(),
            r@ == seq!['['] + spec_networks_items(nets@.take(i as int)),
        decreases nets@.len() - i,
    {
        if i > 0 {
            push_char(&mut r, ',');
        }
        append_network_json(&mut r, &nets[i]);
        proof {
            assert(nets@.take(i as int + 1) =~= nets@.take(i as int).push(nets@[i as int]));
            lemma_items_push(nets@.take(i as int), nets@[i as int]);
            assert(r@ =~= seq!['['] + spec_networks_items(nets@.take(i as int + 1)));
        }
        i = i + 1;
    }
    push_char(&mut r, ']');
    proof {
        assert(nets@.take(nets@.len() as int) =~= nets@);
        assert(r@ =~= spec_networks_json(nets@));
    }
    r
}

} // verus!
