//! Text out of native buffers: names from null-terminated strings, and
//! hardware addresses from their octets.
use vstd::prelude::*;
use vstd::slice::slice_subrange;
use vstd::string::StringExecFns;
use vstd::utf8::{decode_utf8, valid_utf8};

verus! {

/// The upper-case hexadecimal digit of a value below sixteen.
pub open spec fn hex_upper(n: u8) -> char
    recommends
        n < 16,
{
    if n < 10 {
        ('0' as int + n) as char
    } else {
        ('A' as int + n - 10) as char
    }
}

/// The two upper-case hexadecimal digits of an octet, high digit first.
pub open spec fn octet_text(b: u8) -> Seq<char> {
    seq![hex_upper(b / 16), hex_upper(b % 16)]
}

/// The octets of a hardware address as text: two upper-case hexadecimal
/// digits each, joined by `-`. No octets give the empty text.
pub open spec fn hardware_text(octets: Seq<u8>) -> Seq<char>
    decreases octets.len(),
{
    if octets.len() == 0 {
        Seq::empty()
    } else if octets.len() == 1 {
        octet_text(octets[0])
    } else {
        hardware_text(octets.drop_last()) + seq!['-'] + octet_text(octets.last())
    }
}

/// How many octets of an eight-octet buffer a reported length makes use of:
/// the length itself, and all eight where it reports more.
pub open spec fn octets_in_use(length: u32) -> int {
    if length < 8 {
        length as int
    } else {
        8
    }
}

fn hex_digit(n: u8) -> (r: &'static str)
    requires
        n < 16,
    ensures
        r@ == seq![hex_upper(n)],
{
    proof {
        reveal_strlit("0");
        reveal_strlit("1");
        reveal_strlit("2");
        reveal_strlit("3");
        reveal_strlit("4");
        reveal_strlit("5");
        reveal_strlit("6");
        reveal_strlit("7");
        reveal_strlit("8");
        reveal_strlit("9");
        reveal_strlit("A");
        reveal_strlit("B");
        reveal_strlit("C");
        reveal_strlit("D");
        reveal_strlit("E");
        reveal_strlit("F");
    }
    let r = match n {
        0 => "0",
        1 => "1",
        2 => "2",
        3 => "3",
        4 => "4",
        5 => "5",
        6 => "6",
        7 => "7",
        8 => "8",
        9 => "9",
        10 => "A",
        11 => "B",
        12 => "C",
        13 => "D",
        14 => "E",
        _ => "F",
    };
    assert(r@ =~= seq![hex_upper(n)]);
    r
}

/// Formats the hardware address held in the first `length` octets of `array`
/// as upper-case hexadecimal octets joined by `-`, as in `00-1A-2B`. A length
/// of zero gives the empty string; a length above eight uses all eight octets.
pub fn physical_address_to_string(array: [u8; 8], length: u32) -> (r: String)
    ensures
        r@ == hardware_text(array@.take(octets_in_use(length))),
{
    let n: usize = if length < 8 { length as usize } else { 8 };
    let mut text = String::new();
    let mut i: usize = 0;
    while i < n
        invariant
            i <= n <= 8,
            text@ == hardware_text(array@.take(i as int)),
        decreases n - i,
    {
        let b: u8 = array[i];
        if i > 0 {
            proof {
                reveal_strlit("-");
            }
            text.append("-");
        }
        text.append(hex_digit(b / 16));
        text.append(hex_digit(b % 16));
        proof {
            let next = array@.take(i + 1);
            assert(next.drop_last() =~= array@.take(i as int));
            assert(next.last() == b);
            if i > 0 {
                assert(text@ =~= hardware_text(next.drop_last()) + seq!['-'] + octet_text(b));
            } else {
                assert(text@ =~= octet_text(b));
            }
        }
        i += 1;
    }
    text
}

/// Where a null-terminated string ends in its buffer: the index of the first
/// `nul`, or the buffer's length where it holds none.
pub open spec fn terminator_offset<T>(buf: Seq<T>, nul: T) -> nat
    decreases buf.len(),
{
    if buf.len() == 0 || buf[0] == nul {
        0
    } else {
        1 + terminator_offset(buf.drop_first(), nul)
    }
}

/// The part of a buffer that comes before its first `nul`.
pub open spec fn before_terminator<T>(buf: Seq<T>, nul: T) -> Seq<T> {
    buf.take(terminator_offset(buf, nul) as int)
}

/// The terminator's offset is the one index within the buffer that has no
/// `nul` before it and, unless it is the buffer's end, a `nul` at it.
pub proof fn lemma_terminator_offset<T>(buf: Seq<T>, nul: T, k: int)
    requires
        0 <= k <= buf.len(),
        forall|i: int| 0 <= i < k ==> buf[i] != nul,
        k < buf.len() ==> buf[k] == nul,
    ensures
        terminator_offset(buf, nul) == k,
    decreases buf.len(),
{
    if k > 0 {
        let rest = buf.drop_first();
        assert forall|i: int| 0 <= i < k - 1 implies rest[i] != nul by {
            assert(rest[i] == buf[i + 1]);
        }
        lemma_terminator_offset(rest, nul, k - 1);
    }
}

/// A string followed by a terminator reads back as itself, whatever follows
/// the terminator in the buffer.
pub proof fn lemma_text_before_terminator<T>(text: Seq<T>, nul: T, rest: Seq<T>)
    requires
        forall|i: int| 0 <= i < text.len() ==> text[i] != nul,
    ensures
        before_terminator(text + seq![nul] + rest, nul) == text,
        before_terminator(text, nul) == text,
{
    let buf = text + seq![nul] + rest;
    lemma_terminator_offset(buf, nul, text.len() as int);
    assert(buf.take(text.len() as int) =~= text);
    lemma_terminator_offset(text, nul, text.len() as int);
    assert(text.take(text.len() as int) =~= text);
}

/// True for a UTF-16 code unit that is half of a surrogate pair.
pub open spec fn is_surrogate(unit: u16) -> bool {
    0xD800 <= unit <= 0xDFFF
}

/// The text that lossy UTF-16 decoding makes of a sequence of code units:
/// each well-formed unit or pair becomes its character, each stray surrogate
/// becomes U+FFFD.
pub uninterp spec fn utf16_lossy(units: Seq<u16>) -> Seq<char>;

/// The text that lossy UTF-8 decoding makes of a sequence of bytes: each
/// well-formed run becomes its characters, each ill-formed one U+FFFD.
pub uninterp spec fn utf8_lossy(bytes: Seq<u8>) -> Seq<char>;

/// `String::from_utf16_lossy`. The result is a function of the code units
/// alone, named `utf16_lossy`. Of its value this only claims what UTF-16
/// gives for units that are no surrogates: each is the code point of one
/// character, so the text has one character for each unit.
#[verifier::external_body]
fn decode_utf16_lossy(units: &[u16]) -> (r: String)
    ensures
        r@ == utf16_lossy(units@),
        (forall|i: int| 0 <= i < units@.len() ==> !is_surrogate(#[trigger] units@[i]))
            ==> r@ == units@.map_values(|u: u16| u as char),
{
    String::from_utf16_lossy(units)
}

/// `String::from_utf8_lossy`, made into an owned string. The result is a
/// function of the bytes alone, named `utf8_lossy`. Of its value this only
/// claims that well-formed UTF-8 is decoded as it stands.
#[verifier::external_body]
fn decode_utf8_lossy(bytes: &[u8]) -> (r: String)
    ensures
        r@ == utf8_lossy(bytes@),
        valid_utf8(bytes@) ==> r@ == decode_utf8(bytes@),
{
    String::from_utf8_lossy(bytes).into_owned()
}

fn wide_terminator(buf: &[u16]) -> (k: usize)
    ensures
        k == terminator_offset(buf@, 0u16),
        k <= buf@.len(),
{
    let mut k: usize = 0;
    while k < buf.len() && buf[k] != 0
        invariant
            k <= buf@.len(),
            forall|i: int| 0 <= i < k ==> buf@[i] != 0u16,
        decreases buf@.len() - k,
    {
        k += 1;
    }
    proof {
        lemma_terminator_offset(buf@, 0u16, k as int);
    }
    k
}

fn narrow_terminator(buf: &[u8]) -> (k: usize)
    ensures
        k == terminator_offset(buf@, 0u8),
        k <= buf@.len(),
{
    let mut k: usize = 0;
    while k < buf.len() && buf[k] != 0
        invariant
            k <= buf@.len(),
            forall|i: int| 0 <= i < k ==> buf@[i] != 0u8,
        decreases buf@.len() - k,
    {
        k += 1;
    }
    proof {
        lemma_terminator_offset(buf@, 0u8, k as int);
    }
    k
}

/// What a pointer to a buffer leads to: nothing for a null pointer, and else
/// the buffer's contents.
pub open spec fn contents<T>(p: Option<&[T]>) -> Option<Seq<T>> {
    match p {
        None => None,
        Some(buf) => Some(buf@),
    }
}

/// The text of a wide-character string: nothing for a null pointer, and else
/// the lossy UTF-16 decoding of what the buffer holds before its first null.
pub open spec fn wide_text(p: Option<Seq<u16>>) -> Seq<char> {
    match p {
        None => Seq::empty(),
        Some(buf) => utf16_lossy(before_terminator(buf, 0u16)),
    }
}

/// The text of a narrow string: nothing for a null pointer, and else the
/// lossy UTF-8 decoding of what the buffer holds before its first null.
pub open spec fn narrow_text(p: Option<Seq<u8>>) -> Seq<char> {
    match p {
        None => Seq::empty(),
        Some(buf) => utf8_lossy(before_terminator(buf, 0u8)),
    }
}

/// A wide-character string reads the same whatever its buffer holds after
/// its terminator: its text is that of the units before the first null, and
/// of nothing more. A null pointer reads as the empty text.
pub proof fn lemma_wide_text_ends_at_terminator(text: Seq<u16>, rest: Seq<u16>)
    requires
        forall|i: int| 0 <= i < text.len() ==> text[i] != 0u16,
    ensures
        wide_text(Some(text + seq![0u16] + rest)) == utf16_lossy(text),
        wide_text(Some(text)) == utf16_lossy(text),
        wide_text(None) == Seq::<char>::empty(),
{
    lemma_text_before_terminator(text, 0u16, rest);
}

/// A narrow string reads the same whatever its buffer holds after its
/// terminator: its text is that of the bytes before the first null, and of
/// nothing more. A null pointer reads as the empty text.
pub proof fn lemma_narrow_text_ends_at_terminator(text: Seq<u8>, rest: Seq<u8>)
    requires
        forall|i: int| 0 <= i < text.len() ==> text[i] != 0u8,
    ensures
        narrow_text(Some(text + seq![0u8] + rest)) == utf8_lossy(text),
        narrow_text(Some(text)) == utf8_lossy(text),
        narrow_text(None) == Seq::<char>::empty(),
{
    lemma_text_before_terminator(text, 0u8, rest);
}

/// Decodes a null-terminated wide-character string. `p` is `None` for a null
/// pointer, and else the buffer that the pointer leads to; the scan for the
/// terminator stops at the buffer's end. The text is exactly what stands
/// before the first null; a null pointer gives the empty string. Where no
/// unit before the null is a surrogate, each unit is one character.
pub fn u16_array_to_string(p: Option<&[u16]>) -> (r: String)
    ensures
        r@ == wide_text(contents(p)),
        p is None ==> r@.len() == 0,
        p matches Some(buf) ==> {
            let units = before_terminator(buf@, 0u16);
            (forall|i: int| 0 <= i < units.len() ==> !is_surrogate(#[trigger] units[i]))
                ==> r@ == units.map_values(|u: u16| u as char)
        },
{
    match p {
        None => String::new(),
        Some(buf) => {
            let k = wide_terminator(buf);
            decode_utf16_lossy(slice_subrange(buf, 0, k))
        },
    }
}

/// Decodes a null-terminated narrow string. `p` is `None` for a null pointer,
/// and else the buffer that the pointer leads to; the scan for the terminator
/// stops at the buffer's end. The text is exactly what stands before the
/// first null; a null pointer gives the empty string. Where the bytes before
/// the null are well-formed UTF-8, the text is their decoding.
pub fn c_char_array_to_string(p: Option<&[u8]>) -> (r: String)
    ensures
        r@ == narrow_text(contents(p)),
        p is None ==> r@.len() == 0,
        p matches Some(buf) ==> (valid_utf8(before_terminator(buf@, 0u8))
            ==> r@ == decode_utf8(before_terminator(buf@, 0u8))),
{
    match p {
        None => String::new(),
        Some(buf) => {
            let k = narrow_terminator(buf);
            decode_utf8_lossy(slice_subrange(buf, 0, k))
        },
    }
}

} // verus!
