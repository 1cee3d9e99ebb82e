//! Rendering of injected scripted-event blocks, and the table of location ids
//! that the local game contributes to the shared id space.
//!
//! A scripted-event block is plain bytes: a four-digit (zero-padded, decimal)
//! event header, a flag-set side effect, and the award command for the item
//! found there. All numbers are rendered here with verified decimal
//! formatting, so the whole block is pinned down byte for byte.

use vstd::prelude::*;
use vstd::utf8::encode_utf8;

use crate::ITEM_BASE;

verus! {

/// The ASCII digit for `n` (0 through 9).
pub open spec fn dec_digit(n: int) -> u8 {
    (0x30 + n) as u8
}

/// The decimal digits of `n`, most significant first, no padding.
pub open spec fn spec_dec(n: nat) -> Seq<u8>
    decreases n,
{
    if n < 10 {
        seq![dec_digit(n as int)]
    } else {
        spec_dec(n / 10).push(dec_digit((n % 10) as int))
    }
}

/// The decimal digits of `n`, left-padded with zeros to at least `w` digits.
pub open spec fn spec_dec_pad(n: nat, w: nat) -> Seq<u8> {
    if spec_dec(n).len() >= w {
        spec_dec(n)
    } else {
        Seq::new((w - spec_dec(n).len()) as nat, |i: int| 0x30u8) + spec_dec(n)
    }
}

/// The UTF-8 bytes of a piece of fixed script text.
pub open spec fn text_bytes(s: &str) -> Seq<u8> {
    encode_utf8(s@)
}

/// Append the bytes of `s` to `buf`.
pub(crate) fn push_bytes(buf: &mut Vec<u8>, s: &[u8])
    ensures
        final(buf)@ == old(buf)@ + s@,
{
    buf.extend_from_slice(s);
    assert(final(buf)@ =~= old(buf)@ + s@);
}

/// Append the UTF-8 bytes of `s` to `buf`.
pub(crate) fn push_text(buf: &mut Vec<u8>, s: &str)
    ensures
        final(buf)@ == old(buf)@ + text_bytes(s),
{
    push_bytes(buf, s.as_bytes());
}

/// Append the decimal digits of `n`, most significant first.
pub(crate) fn push_dec(buf: &mut Vec<u8>, n: u32)
    ensures
        final(buf)@ == old(buf)@ + spec_dec(n as nat),
    decreases n,
{
    if n >= 10 {
        push_dec(buf, n / 10);
    }
    buf.push(0x30 + (n % 10) as u8);
    assert(final(buf)@ =~= old(buf)@ + spec_dec(n as nat));
}

/// A decimal rendering never has more digits than the value itself.
proof fn lemma_spec_dec_len(n: nat)
    ensures
        1 <= spec_dec(n).len() <= n + 1,
    decreases n,
{
    if n >= 10 {
        lemma_spec_dec_len(n / 10);
    }
}

/// The number of decimal digits of `n`.
fn dec_len(n: u32) -> (r: usize)
    ensures
        r == spec_dec(n as nat).len(),
    decreases n,
{
    if n < 10 {
        1
    } else {
        proof {
            lemma_spec_dec_len((n / 10) as nat);
        }
        1 + dec_len(n / 10)
    }
}

/// Append the decimal digits of `n`, zero-padded to at least `width` digits.
pub(crate) fn push_dec_pad(buf: &mut Vec<u8>, n: u32, width: usize)
    requires
        width <= 16,
    ensures
        final(buf)@ == old(buf)@ + spec_dec_pad(n as nat, width as nat),
{
    let len = dec_len(n);
    let pad: usize = if width > len {
        width - len
    } else {
        0
    };
    let mut j: usize = 0;
    while j < pad
        invariant
            j <= pad,
            buf@ == old(buf)@ + Seq::new(j as nat, |k: int| 0x30u8),
        decreases pad - j,
    {
        buf.push(0x30);
        assert(buf@ =~= old(buf)@ + Seq::new((j + 1) as nat, |k: int| 0x30u8));
        j += 1;
    }
    push_dec(buf, n);
    proof {
        if len >= width {
            assert(spec_dec_pad(n as nat, width as nat) == spec_dec(n as nat));
            assert(Seq::new(0nat, |k: int| 0x30u8) =~= Seq::<u8>::empty());
        }
        assert(final(buf)@ =~= old(buf)@ + spec_dec_pad(n as nat, width as nat));
    }
}

/// The award command of an injected block: for another player's item, a
/// message naming that player; for the local player's own item, a jump to the
/// event that awards the item natively. The jump target is deliberately the
/// item's full network id, rendered with however many digits it has, exactly
/// as the host project writes it.
pub open spec fn spec_tsc_command(item_id: i32, item_name: Seq<u8>, player_name: Option<
    Seq<u8>,
>) -> Seq<u8> {
    match player_name {
        Some(name) => text_bytes("<MSG<CLR<GIT1005\r\n<CMU0010") + text_bytes("Got ") + name
            + text_bytes("'s\r\n =") + item_name + text_bytes("=.<WAI0160<NOD"),
        None => text_bytes("<EVE") + spec_dec_pad(item_id as nat, 4),
    }
}

/// A whole injected block: event header, flag-set side effect, award command.
pub open spec fn spec_generate_tsc(
    flag_id: u16,
    event_id: u16,
    item_id: i32,
    item_name: Seq<u8>,
    player_name: Option<Seq<u8>>,
) -> Seq<u8> {
    spec_dec_pad(event_id as nat, 4) + text_bytes("\r\n<FL+") + spec_dec_pad(flag_id as nat, 4)
        + text_bytes("\r\n") + spec_tsc_command(item_id, item_name, player_name) + text_bytes(
        "\r\n",
    )
}

/// The UTF-8 bytes of an optional display name.
pub open spec fn opt_name_bytes(p: Option<String>) -> Option<Seq<u8>> {
    match p {
        Some(name) => Some(encode_utf8(name@)),
        None => None,
    }
}

/// Fill `buf` with the scripted-event block that replaces event `event_id`:
/// it sets flag `flag_id` and then awards the item.
pub fn generate_tsc(
    buf: &mut Vec<u8>,
    flag_id: u16,
    event_id: u16,
    item_id: i32,
    item_name: String,
    player_name: Option<String>,
)
    requires
        0 <= item_id,
    ensures
        final(buf)@ == spec_generate_tsc(
            flag_id,
            event_id,
            item_id,
            encode_utf8(item_name@),
            opt_name_bytes(player_name),
        ),
{
    buf.clear();
    push_dec_pad(buf, event_id as u32, 4);
    push_text(buf, "\r\n<FL+");
    push_dec_pad(buf, flag_id as u32, 4);
    push_text(buf, "\r\n");
    match &player_name {
        Some(name) => {
            push_text(buf, "<MSG<CLR<GIT1005\r\n<CMU0010");
            push_text(buf, "Got ");
            push_bytes(buf, name.as_str().as_bytes());
            push_text(buf, "'s\r\n =");
            push_bytes(buf, item_name.as_str().as_bytes());
            push_text(buf, "=.<WAI0160<NOD");
        },
        None => {
            push_text(buf, "<EVE");
            push_dec_pad(buf, item_id as u32, 4);
        },
    }
    push_text(buf, "\r\n");
    assert(final(buf)@ =~= spec_generate_tsc(
        flag_id,
        event_id,
        item_id,
        encode_utf8(item_name@),
        opt_name_bytes(player_name),
    ));
}

/// The network location ids of every location the local game offers.
pub open spec fn spec_all_locations() -> Seq<i32> {
    seq![
        (101 + ITEM_BASE) as i32,
        (102 + ITEM_BASE) as i32,
        (140 + ITEM_BASE) as i32,
        (200 + ITEM_BASE) as i32,
        (218 + ITEM_BASE) as i32,
        (220 + ITEM_BASE) as i32,
        (270 + ITEM_BASE) as i32,
        (271 + ITEM_BASE) as i32,
        (304 + ITEM_BASE) as i32,
        (322 + ITEM_BASE) as i32,
        (370 + ITEM_BASE) as i32,
        (390 + ITEM_BASE) as i32,
        (412 + ITEM_BASE) as i32,
        (501 + ITEM_BASE) as i32,
        (540 + ITEM_BASE) as i32,
        (550 + ITEM_BASE) as i32,
        (581 + ITEM_BASE) as i32,
        (642 + ITEM_BASE) as i32,
        (705 + ITEM_BASE) as i32,
        (711 + ITEM_BASE) as i32,
        (834 + ITEM_BASE) as i32,
        (880 + ITEM_BASE) as i32,
        (920 + ITEM_BASE) as i32,
        (1043 + ITEM_BASE) as i32,
        (1530 + ITEM_BASE) as i32,
        (1640 + ITEM_BASE) as i32,
        (1700 + ITEM_BASE) as i32,
    ]
}

/// The location ids scouted after connecting: all locations of the local game.
pub fn all_locations() -> (v: Vec<i32>)
    ensures
        v@ == spec_all_locations(),
{
    let v: Vec<i32> = vec![
        101 + ITEM_BASE,
        102 + ITEM_BASE,
        140 + ITEM_BASE,
        200 + ITEM_BASE,
        218 + ITEM_BASE,
        220 + ITEM_BASE,
        270 + ITEM_BASE,
        271 + ITEM_BASE,
        304 + ITEM_BASE,
        322 + ITEM_BASE,
        370 + ITEM_BASE,
        390 + ITEM_BASE,
        412 + ITEM_BASE,
        501 + ITEM_BASE,
        540 + ITEM_BASE,
        550 + ITEM_BASE,
        581 + ITEM_BASE,
        642 + ITEM_BASE,
        705 + ITEM_BASE,
        711 + ITEM_BASE,
        834 + ITEM_BASE,
        880 + ITEM_BASE,
        920 + ITEM_BASE,
        1043 + ITEM_BASE,
        1530 + ITEM_BASE,
        1640 + ITEM_BASE,
        1700 + ITEM_BASE,
    ];
    assert(v@ =~= spec_all_locations());
    v
}

} // verus!
