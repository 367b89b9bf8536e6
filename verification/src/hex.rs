//! Bytes as lowercase hexadecimal text.

use vstd::prelude::*;

verus! {

/// The hexadecimal digit of a value below sixteen.
pub open spec fn hex_digit(value: int) -> char {
    if value < 10 {
        (value + '0' as int) as char
    } else {
        (value - 10 + 'a' as int) as char
    }
}

/// Two digits for each byte, the high half first.
pub open spec fn hex_text(bytes: Seq<u8>) -> Seq<char> {
    Seq::new(
        2 * bytes.len(),
        |i: int|
            if i % 2 == 0 {
                hex_digit(bytes[i / 2] as int / 16)
            } else {
                hex_digit(bytes[i / 2] as int % 16)
            },
    )
}

/// How many of `len` bytes are shown when `take` are asked for.
pub open spec fn shown(len: nat, take: nat) -> nat {
    if take < len {
        take
    } else {
        len
    }
}

/// `String::push` appends one character.
pub assume_specification[ String::push ](text: &mut String, c: char)
    ensures
        final(text)@ == old(text)@.push(c),
;

fn digit(value: u8) -> (c: char)
    requires
        value < 16,
    ensures
        c == hex_digit(value as int),
{
    if value < 10 {
        (48 + value) as char
    } else {
        (97 + (value - 10)) as char
    }
}

/// The first `take` bytes in hexadecimal, or all of them where there are fewer.
pub fn short_hex(bytes: &[u8], take: usize) -> (text: String)
    ensures
        text@ == hex_text(bytes@.take(shown(bytes@.len(), take as nat) as int)),
{
    let len: usize = if take < bytes.len() {
        take
    } else {
        bytes.len()
    };
    let mut text: String = String::new();
    let ghost part = bytes@.take(len as int);
    let mut i: usize = 0;
    while i < len
        invariant
            i <= len <= bytes.len(),
            part == bytes@.take(len as int),
            text@.len() == 2 * i,
            forall|j: int| 0 <= j < 2 * i ==> text@[j] == hex_text(part)[j],
        decreases len - i,
    {
        let byte: u8 = bytes[i];
        text.push(digit(byte / 16));
        text.push(digit(byte % 16));
        proof {
            assert(part[i as int] == byte);
            assert((2 * i) / 2 == i && (2 * i) % 2 == 0);
            assert((2 * i + 1) / 2 == i && (2 * i + 1) % 2 == 1);
        }
        i += 1;
    }
    assert(text@ =~= hex_text(part));
    text
}

/// Different byte strings have different texts.
pub proof fn hex_texts_differ(a: Seq<u8>, b: Seq<u8>)
    requires
        a != b,
    ensures
        hex_text(a) != hex_text(b),
{
    if hex_text(a) == hex_text(b) {
        assert(a.len() == b.len()) by {
            assert(hex_text(a).len() == hex_text(b).len());
        }
        assert forall|i: int| 0 <= i < a.len() implies a[i] == b[i] by {
            assert((2 * i) / 2 == i && (2 * i) % 2 == 0);
            assert((2 * i + 1) / 2 == i && (2 * i + 1) % 2 == 1);
            assert(hex_text(a)[2 * i] == hex_text(b)[2 * i]);
            assert(hex_text(a)[2 * i + 1] == hex_text(b)[2 * i + 1]);
        }
        assert(a =~= b);
    }
}

} // verus!
