//! Unix permission bits and their `rwxrwxrwx` text form.
//!
//! A permission value is nine bits: read, write and execute for the owner,
//! the group and everybody else. The text form shows each bit as its letter
//! when it is set and as `-` when it is not.

use vstd::prelude::*;

verus! {

/// The three characters that show one group of `mode`: the letter of each
/// right whose mask meets `mode`, a dash for each that does not.
pub open spec fn triplet_text(mode: u16, read: u16, write: u16, execute: u16) -> Seq<char> {
    seq![
        if mode & read != 0 { 'r' } else { '-' },
        if mode & write != 0 { 'w' } else { '-' },
        if mode & execute != 0 { 'x' } else { '-' },
    ]
}

/// The nine characters that show `mode`: owner, then group, then others.
pub open spec fn permission_text(mode: u16) -> Seq<char> {
    triplet_text(mode, 0o400, 0o200, 0o100) + triplet_text(mode, 0o040, 0o020, 0o010)
        + triplet_text(mode, 0o004, 0o002, 0o001)
}

/// `bit` when `set` holds, nothing otherwise.
pub open spec fn flag(set: bool, bit: u16) -> u16 {
    if set {
        bit
    } else {
        0
    }
}

/// The bits that a text of nine characters stands for. A bit is set exactly
/// when its position holds its own letter; whatever else stands there,
/// a dash or not, leaves the bit clear. A text of another length stands for
/// nothing.
pub open spec fn permission_bits(text: Seq<char>) -> Option<u16> {
    if text.len() != 9 {
        None
    } else {
        Some(
            flag(text[0] == 'r', 0o400) | flag(text[1] == 'w', 0o200) | flag(text[2] == 'x', 0o100)
                | flag(text[3] == 'r', 0o040) | flag(text[4] == 'w', 0o020)
                | flag(text[5] == 'x', 0o010) | flag(text[6] == 'r', 0o004)
                | flag(text[7] == 'w', 0o002) | flag(text[8] == 'x', 0o001),
        )
    }
}

/// The letter that belongs at position `i` of a permission text.
pub open spec fn letter_at(i: int) -> char {
    if i % 3 == 0 {
        'r'
    } else if i % 3 == 1 {
        'w'
    } else {
        'x'
    }
}

/// A text as `permission_text` writes it: nine characters, each one a dash
/// or the letter of its position.
pub open spec fn is_canonical(text: Seq<char>) -> bool {
    &&& text.len() == 9
    &&& forall|i: int| 0 <= i < 9 ==> text[i] == '-' || text[i] == letter_at(i)
}

/// `libc::S_IRUSR`: the owner may read.
#[verifier::external_body]
fn s_irusr() -> (bit: u16)
    ensures
        bit == 0o400,
{
    libc::S_IRUSR as u16
}

/// `libc::S_IWUSR`: the owner may write.
#[verifier::external_body]
fn s_iwusr() -> (bit: u16)
    ensures
        bit == 0o200,
{
    libc::S_IWUSR as u16
}

/// `libc::S_IXUSR`: the owner may execute.
#[verifier::external_body]
fn s_ixusr() -> (bit: u16)
    ensures
        bit == 0o100,
{
    libc::S_IXUSR as u16
}

/// `libc::S_IRGRP`: the group may read.
#[verifier::external_body]
fn s_irgrp() -> (bit: u16)
    ensures
        bit == 0o040,
{
    libc::S_IRGRP as u16
}

/// `libc::S_IWGRP`: the group may write.
#[verifier::external_body]
fn s_iwgrp() -> (bit: u16)
    ensures
        bit == 0o020,
{
    libc::S_IWGRP as u16
}

/// `libc::S_IXGRP`: the group may execute.
#[verifier::external_body]
fn s_ixgrp() -> (bit: u16)
    ensures
        bit == 0o010,
{
    libc::S_IXGRP as u16
}

/// `libc::S_IROTH`: everybody else may read.
#[verifier::external_body]
fn s_iroth() -> (bit: u16)
    ensures
        bit == 0o004,
{
    libc::S_IROTH as u16
}

/// `libc::S_IWOTH`: everybody else may write.
#[verifier::external_body]
fn s_iwoth() -> (bit: u16)
    ensures
        bit == 0o002,
{
    libc::S_IWOTH as u16
}

/// `libc::S_IXOTH`: everybody else may execute.
#[verifier::external_body]
fn s_ixoth() -> (bit: u16)
    ensures
        bit == 0o001,
{
    libc::S_IXOTH as u16
}

/// Writes one group of `mode` as three characters, given the masks of its
/// read, write and execute bits.
pub fn triplet(mode: u16, read: u16, write: u16, execute: u16) -> (text: String)
    ensures
        text@ == triplet_text(mode, read, write, execute),
{
    let shown = match (mode & read != 0, mode & write != 0, mode & execute != 0) {
        (false, false, false) => "---",
        (true, false, false) => "r--",
        (false, true, false) => "-w-",
        (false, false, true) => "--x",
        (true, false, true) => "r-x",
        (true, true, false) => "rw-",
        (false, true, true) => "-wx",
        (true, true, true) => "rwx",
    };
    proof {
        reveal_strlit("---");
        reveal_strlit("r--");
        reveal_strlit("-w-");
        reveal_strlit("--x");
        reveal_strlit("r-x");
        reveal_strlit("rw-");
        reveal_strlit("-wx");
        reveal_strlit("rwx");
        assert(shown@ =~= triplet_text(mode, read, write, execute));
    }
    String::from_str(shown)
}

/// Writes a mode as its nine characters, from `---------` to `rwxrwxrwx`.
/// Bits above the lowest nine do not show.
pub fn permissions_to_string(mode: u16) -> (text: String)
    ensures
        text@ == permission_text(mode),
        text@.len() == 9,
{
    let user = triplet(mode, s_irusr(), s_iwusr(), s_ixusr());
    let group = triplet(mode, s_irgrp(), s_iwgrp(), s_ixgrp());
    let other = triplet(mode, s_iroth(), s_iwoth(), s_ixoth());
    user.concat(group.as_str()).concat(other.as_str())
}

/// `bit` if the character at `index` of `text` is `letter`, else no bit.
fn bit_if(text: &str, index: usize, letter: char, bit: u16) -> (found: u16)
    requires
        index < text@.len(),
    ensures
        found == flag(text@[index as int] == letter, bit),
{
    if text.get_char(index) == letter {
        bit
    } else {
        0
    }
}

/// Reads a permission text. A text that is not nine characters long is no
/// permission text at all; in one that is, every position that does not hold
/// its own letter counts as a clear bit.
pub fn string_to_permissions(s: &str) -> (mode: Option<u16>)
    ensures
        mode == permission_bits(s@),
{
    if s.unicode_len() != 9 {
        return None;
    }
    let owner = bit_if(s, 0, 'r', s_irusr()) | bit_if(s, 1, 'w', s_iwusr())
        | bit_if(s, 2, 'x', s_ixusr());
    let group = bit_if(s, 3, 'r', s_irgrp()) | bit_if(s, 4, 'w', s_iwgrp())
        | bit_if(s, 5, 'x', s_ixgrp());
    let other = bit_if(s, 6, 'r', s_iroth()) | bit_if(s, 7, 'w', s_iwoth())
        | bit_if(s, 8, 'x', s_ixoth());
    proof {
        lemma_or_regroup(
            flag(s@[0] == 'r', 0o400),
            flag(s@[1] == 'w', 0o200),
            flag(s@[2] == 'x', 0o100),
            flag(s@[3] == 'r', 0o040),
            flag(s@[4] == 'w', 0o020),
            flag(s@[5] == 'x', 0o010),
            flag(s@[6] == 'r', 0o004),
            flag(s@[7] == 'w', 0o002),
            flag(s@[8] == 'x', 0o001),
        );
    }
    Some(owner | group | other)
}

/// Joining three groups of three gives what joining all nine in a row gives.
proof fn lemma_or_regroup(
    a: u16,
    b: u16,
    c: u16,
    d: u16,
    e: u16,
    f: u16,
    g: u16,
    h: u16,
    i: u16,
)
    by (bit_vector)
    ensures
        (a | b | c) | (d | e | f) | (g | h | i) == a | b | c | d | e | f | g | h | i,
{
}

/// Nine values, each one either nothing or the bit of its own position, can
/// each be read back from their union.
proof fn lemma_union_keeps_each(
    a: u16,
    b: u16,
    c: u16,
    d: u16,
    e: u16,
    f: u16,
    g: u16,
    h: u16,
    i: u16,
)
    by (bit_vector)
    requires
        a == 0 || a == 0o400,
        b == 0 || b == 0o200,
        c == 0 || c == 0o100,
        d == 0 || d == 0o040,
        e == 0 || e == 0o020,
        f == 0 || f == 0o010,
        g == 0 || g == 0o004,
        h == 0 || h == 0o002,
        i == 0 || i == 0o001,
    ensures
        (a | b | c | d | e | f | g | h | i) & 0o400 == a,
        (a | b | c | d | e | f | g | h | i) & 0o200 == b,
        (a | b | c | d | e | f | g | h | i) & 0o100 == c,
        (a | b | c | d | e | f | g | h | i) & 0o040 == d,
        (a | b | c | d | e | f | g | h | i) & 0o020 == e,
        (a | b | c | d | e | f | g | h | i) & 0o010 == f,
        (a | b | c | d | e | f | g | h | i) & 0o004 == g,
        (a | b | c | d | e | f | g | h | i) & 0o002 == h,
        (a | b | c | d | e | f | g | h | i) & 0o001 == i,
{
}

/// A mode is the union of its nine low bits, taken one by one, once whatever
/// lies above them is cut off.
proof fn lemma_union_of_each(m: u16)
    by (bit_vector)
    ensures
        (m & 0o400) | (m & 0o200) | (m & 0o100) | (m & 0o040) | (m & 0o020) | (m & 0o010) | (m
            & 0o004) | (m & 0o002) | (m & 0o001) == m & 0o777,
        m & 0o400 == 0 || m & 0o400 == 0o400,
        m & 0o200 == 0 || m & 0o200 == 0o200,
        m & 0o100 == 0 || m & 0o100 == 0o100,
        m & 0o040 == 0 || m & 0o040 == 0o040,
        m & 0o020 == 0 || m & 0o020 == 0o020,
        m & 0o010 == 0 || m & 0o010 == 0o010,
        m & 0o004 == 0 || m & 0o004 == 0o004,
        m & 0o002 == 0 || m & 0o002 == 0o002,
        m & 0o001 == 0 || m & 0o001 == 0o001,
{
}

/// Reading a canonical text and writing the result gives the text back,
/// character for character.
pub proof fn lemma_text_round_trip(text: Seq<char>)
    requires
        is_canonical(text),
    ensures
        permission_bits(text) is Some,
        permission_text(permission_bits(text).unwrap()) == text,
{
    let a = flag(text[0] == 'r', 0o400);
    let b = flag(text[1] == 'w', 0o200);
    let c = flag(text[2] == 'x', 0o100);
    let d = flag(text[3] == 'r', 0o040);
    let e = flag(text[4] == 'w', 0o020);
    let f = flag(text[5] == 'x', 0o010);
    let g = flag(text[6] == 'r', 0o004);
    let h = flag(text[7] == 'w', 0o002);
    let i = flag(text[8] == 'x', 0o001);
    lemma_union_keeps_each(a, b, c, d, e, f, g, h, i);
    assert(letter_at(0) == 'r' && letter_at(1) == 'w' && letter_at(2) == 'x');
    assert(letter_at(3) == 'r' && letter_at(4) == 'w' && letter_at(5) == 'x');
    assert(letter_at(6) == 'r' && letter_at(7) == 'w' && letter_at(8) == 'x');
    let mode = permission_bits(text).unwrap();
    assert(mode == a | b | c | d | e | f | g | h | i);
    let owner = triplet_text(mode, 0o400, 0o200, 0o100);
    let group = triplet_text(mode, 0o040, 0o020, 0o010);
    let other = triplet_text(mode, 0o004, 0o002, 0o001);
    assert(owner =~= text.subrange(0, 3));
    assert(group =~= text.subrange(3, 6));
    assert(other =~= text.subrange(6, 9));
    assert(text.subrange(0, 3) + text.subrange(3, 6) + text.subrange(6, 9) =~= text);
}

/// Writing a mode and reading the text gives back its nine low bits: what
/// lies above them is not written, so it does not come back.
pub proof fn lemma_mode_round_trip(mode: u16)
    ensures
        is_canonical(permission_text(mode)),
        permission_bits(permission_text(mode)) == Some(mode & 0o777),
{
    let text = permission_text(mode);
    assert(text.len() == 9);
    assert forall|i: int| 0 <= i < 9 implies text[i] == '-' || text[i] == letter_at(i) by {
        assert(letter_at(0) == 'r' && letter_at(1) == 'w' && letter_at(2) == 'x');
        assert(letter_at(3) == 'r' && letter_at(4) == 'w' && letter_at(5) == 'x');
        assert(letter_at(6) == 'r' && letter_at(7) == 'w' && letter_at(8) == 'x');
    }
    lemma_union_of_each(mode);
    assert(flag(text[0] == 'r', 0o400) == mode & 0o400);
    assert(flag(text[1] == 'w', 0o200) == mode & 0o200);
    assert(flag(text[2] == 'x', 0o100) == mode & 0o100);
    assert(flag(text[3] == 'r', 0o040) == mode & 0o040);
    assert(flag(text[4] == 'w', 0o020) == mode & 0o020);
    assert(flag(text[5] == 'x', 0o010) == mode & 0o010);
    assert(flag(text[6] == 'r', 0o004) == mode & 0o004);
    assert(flag(text[7] == 'w', 0o002) == mode & 0o002);
    assert(flag(text[8] == 'x', 0o001) == mode & 0o001);
}

} // verus!
