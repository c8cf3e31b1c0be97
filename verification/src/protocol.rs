use vstd::prelude::*;

verus! {

/// How one received protocol line is to be handled, decided by substring
/// matching in the priority order of the handshake: an informational
/// `log:` message, a highlighted identity field, the request for the file
/// length, the request for the next chunk, the completion signal, or an
/// unrecognized diagnostic line.
#[derive(Clone, Copy, Debug, PartialEq, Eq, Structural)]
pub enum LineClass {
    Log,
    Identity,
    Size,
    Data,
    Done,
    Other,
}

/// `needle` occurs in `hay` starting at index `i`.
pub open spec fn occurs_at(hay: Seq<u8>, needle: Seq<u8>, i: int) -> bool {
    0 <= i && i + needle.len() <= hay.len() && hay.subrange(i, i + needle.len()) == needle
}

/// `needle` occurs somewhere in `hay`.
pub open spec fn contains_seq(hay: Seq<u8>, needle: Seq<u8>) -> bool {
    exists|i: int| occurs_at(hay, needle, i)
}

/// The ASCII bytes of `log:`.
pub open spec fn kw_log() -> Seq<u8> {
    seq![108u8, 111u8, 103u8, 58u8]
}

/// The ASCII bytes of `ICCID`.
pub open spec fn kw_iccid() -> Seq<u8> {
    seq![73u8, 67u8, 67u8, 73u8, 68u8]
}

/// The ASCII bytes of `IMEI`.
pub open spec fn kw_imei() -> Seq<u8> {
    seq![73u8, 77u8, 69u8, 73u8]
}

/// The ASCII bytes of `SID`.
pub open spec fn kw_sid() -> Seq<u8> {
    seq![83u8, 73u8, 68u8]
}

/// The ASCII bytes of `SIZE`.
pub open spec fn kw_size() -> Seq<u8> {
    seq![83u8, 73u8, 90u8, 69u8]
}

/// The ASCII bytes of `DATA`.
pub open spec fn kw_data() -> Seq<u8> {
    seq![68u8, 65u8, 84u8, 65u8]
}

/// The ASCII bytes of `DONE`.
pub open spec fn kw_done() -> Seq<u8> {
    seq![68u8, 79u8, 78u8, 69u8]
}

/// The classification of a line, by keyword containment in priority order.
pub open spec fn line_class(s: Seq<u8>) -> LineClass {
    if contains_seq(s, kw_log()) {
        LineClass::Log
    } else if contains_seq(s, kw_iccid()) || contains_seq(s, kw_imei()) || contains_seq(
        s,
        kw_sid(),
    ) {
        LineClass::Identity
    } else if contains_seq(s, kw_size()) {
        LineClass::Size
    } else if contains_seq(s, kw_data()) {
        LineClass::Data
    } else if contains_seq(s, kw_done()) {
        LineClass::Done
    } else {
        LineClass::Other
    }
}

/// A line classified as `log:` is at least four bytes long, so the
/// four-byte prefix can always be stripped from it.
pub proof fn lemma_log_line_len(s: Seq<u8>)
    requires
        line_class(s) == LineClass::Log,
    ensures
        s.len() >= 4,
{
    let i = choose|i: int| occurs_at(s, kw_log(), i);
    assert(i + 4 <= s.len());
}

/// Whether `needle` occurs in `hay` starting at `i`, checked byte by byte.
fn occurs_at_exec(hay: &Vec<u8>, needle: &Vec<u8>, i: usize) -> (r: bool)
    requires
        i + needle@.len() <= hay@.len(),
    ensures
        r == occurs_at(hay@, needle@, i as int),
{
    let hlen = hay.len();
    let mut j: usize = 0;
    while j < needle.len()
        invariant
            j <= needle.len(),
            i + needle@.len() <= hay@.len(),
            hay@.len() == hlen,
            forall|k: int| 0 <= k < j ==> hay@[i + k] == needle@[k],
        decreases needle.len() - j,
    {
        if hay[i + j] != needle[j] {
            proof {
                assert(hay@.subrange(i as int, i + needle@.len())[j as int] == hay@[i + j]);
            }
            return false;
        }
        j = j + 1;
    }
    proof {
        assert(hay@.subrange(i as int, i + needle@.len()) =~= needle@);
    }
    true
}

/// Whether `needle` occurs anywhere in `hay`.
fn contains_exec(hay: &Vec<u8>, needle: &Vec<u8>) -> (r: bool)
    ensures
        r == contains_seq(hay@, needle@),
{
    if needle.len() > hay.len() {
        return false;
    }
    if needle.len() == 0 {
        proof {
            assert(hay@.subrange(0, 0) =~= needle@);
            assert(occurs_at(hay@, needle@, 0));
        }
        return true;
    }
    let hlen = hay.len();
    let mut i: usize = 0;
    while i <= hay.len() - needle.len()
        invariant
            1 <= needle@.len() <= hay@.len(),
            hay@.len() == hlen,
            i <= hay@.len() - needle@.len() + 1,
            forall|k: int| 0 <= k < i ==> !occurs_at(hay@, needle@, k),
        decreases hay.len() + 1 - needle.len() - i,
    {
        if occurs_at_exec(hay, needle, i) {
            return true;
        }
        i = i + 1;
    }
    false
}

/// Builds the runtime bytes of one keyword from its specification sequence.
fn keyword_bytes(which: LineClass) -> (v: Vec<u8>)
    requires
        which != LineClass::Other && which != LineClass::Identity,
    ensures
        which == LineClass::Log ==> v@ == kw_log(),
        which == LineClass::Size ==> v@ == kw_size(),
        which == LineClass::Data ==> v@ == kw_data(),
        which == LineClass::Done ==> v@ == kw_done(),
    {
    let mut v: Vec<u8> = Vec::new();
    match which {
        LineClass::Log => {
            v.push(108);
            v.push(111);
            v.push(103);
            v.push(58);
            proof {
                assert(v@ =~= kw_log());
            }
        },
        LineClass::Size => {
            v.push(83);
            v.push(73);
            v.push(90);
            v.push(69);
            proof {
                assert(v@ =~= kw_size());
            }
        },
        LineClass::Data => {
            v.push(68);
            v.push(65);
            v.push(84);
            v.push(65);
            proof {
                assert(v@ =~= kw_data());
            }
        },
        _ => {
            v.push(68);
            v.push(79);
            v.push(78);
            v.push(69);
            proof {
                assert(v@ =~= kw_done());
            }
        },
    }
    v
}

/// Builds the runtime bytes of one identity keyword: 0 is `ICCID`,
/// 1 is `IMEI`, anything else is `SID`.
fn identity_bytes(which: u8) -> (v: Vec<u8>)
    ensures
        which == 0 ==> v@ == kw_iccid(),
        which == 1 ==> v@ == kw_imei(),
        which >= 2 ==> v@ == kw_sid(),
{
    let mut v: Vec<u8> = Vec::new();
    if which == 0 {
        v.push(73);
        v.push(67);
        v.push(67);
        v.push(73);
        v.push(68);
        proof {
            assert(v@ =~= kw_iccid());
        }
    } else if which == 1 {
        v.push(73);
        v.push(77);
        v.push(69);
        v.push(73);
        proof {
            assert(v@ =~= kw_imei());
        }
    } else {
        v.push(83);
        v.push(73);
        v.push(68);
        proof {
            assert(v@ =~= kw_sid());
        }
    }
    v
}

/// Classifies one received line by keyword containment, in the priority
/// order of the handshake.
pub fn classify_line(line: &Vec<u8>) -> (c: LineClass)
    ensures
        c == line_class(line@),
{
    if contains_exec(line, &keyword_bytes(LineClass::Log)) {
        LineClass::Log
    } else if contains_exec(line, &identity_bytes(0)) || contains_exec(line, &identity_bytes(1))
        || contains_exec(line, &identity_bytes(2)) {
        LineClass::Identity
    } else if contains_exec(line, &keyword_bytes(LineClass::Size)) {
        LineClass::Size
    } else if contains_exec(line, &keyword_bytes(LineClass::Data)) {
        LineClass::Data
    } else if contains_exec(line, &keyword_bytes(LineClass::Done)) {
        LineClass::Done
    } else {
        LineClass::Other
    }
}

/// The decimal digit bytes of `n`, most significant first.
pub open spec fn dec_digits(n: nat) -> Seq<u8>
    decreases n,
{
    if n < 10 {
        seq![(48 + n) as u8]
    } else {
        dec_digits((n / 10) as nat).push((48 + n % 10) as u8)
    }
}

/// The decimal ASCII representation of `n`, as sent in reply to `SIZE`.
pub fn u64_decimal(n: u64) -> (v: Vec<u8>)
    ensures
        v@ == dec_digits(n as nat),
    decreases n,
{
    if n < 10 {
        let mut v: Vec<u8> = Vec::new();
        v.push(48 + (n as u8));
        proof {
            assert(v@ =~= dec_digits(n as nat));
        }
        v
    } else {
        let mut v = u64_decimal(n / 10);
        v.push(48 + ((n % 10) as u8));
        v
    }
}

} // verus!
