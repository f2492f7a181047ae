//! Startup decisions around the hardware library: which probed card the
//! service selects, and extracting the kernel driver's version triple from
//! the driver version text. The host reads the text and loads libraries;
//! this module only decides and parses.
use vstd::prelude::*;

verus! {

/// The byte of an ASCII dot.
pub const DOT: u8 = 46;

/// An ASCII decimal digit.
pub open spec fn is_ascii_digit(b: u8) -> bool {
    48 <= b <= 57
}

/// An ASCII space.
pub open spec fn is_ascii_space(b: u8) -> bool {
    b == 32
}

/// The marker the version text is searched for, as bytes: `Kernel Module`.
pub open spec fn marker() -> Seq<u8> {
    seq![75u8, 101u8, 114u8, 110u8, 101u8, 108u8, 32u8, 77u8, 111u8, 100u8, 117u8, 108u8, 101u8]
}

/// The marker occupies [i, i + 13) of the text.
pub open spec fn marker_at(t: Seq<u8>, i: int) -> bool {
    0 <= i && i + 13 <= t.len() && t.subrange(i, i + 13) == marker()
}

/// Where the run of spaces starting at `k` ends.
pub open spec fn space_run_end(t: Seq<u8>, k: int) -> int
    decreases t.len() - k,
{
    if k < 0 || k >= t.len() {
        k
    } else if is_ascii_space(t[k]) {
        space_run_end(t, k + 1)
    } else {
        k
    }
}

/// Where the run of digits starting at `k` ends.
pub open spec fn digit_run_end(t: Seq<u8>, k: int) -> int
    decreases t.len() - k,
{
    if k < 0 || k >= t.len() {
        k
    } else if is_ascii_digit(t[k]) {
        digit_run_end(t, k + 1)
    } else {
        k
    }
}

/// What a marker found at `i` captures: after at least one space there must
/// stand a version triple `digits '.' digits '.' digits`, each run taken as
/// long as it is; the capture is the triple's span, or nothing when the
/// shape is not met.
pub open spec fn capture_at(t: Seq<u8>, i: int) -> Option<(int, int)> {
    let s = space_run_end(t, i + 13);
    let e1 = digit_run_end(t, s);
    let e2 = digit_run_end(t, e1 + 1);
    let e3 = digit_run_end(t, e2 + 1);
    if s == i + 13 {
        Option::None
    } else if e1 == s {
        Option::None
    } else if e1 == t.len() || t[e1] != DOT {
        Option::None
    } else if e2 == e1 + 1 {
        Option::None
    } else if e2 == t.len() || t[e2] != DOT {
        Option::None
    } else if e3 == e2 + 1 {
        Option::None
    } else {
        Option::Some((s, e3))
    }
}

/// A full pattern match at `i`: the marker, then a capturable triple.
pub open spec fn match_at(t: Seq<u8>, i: int) -> bool {
    marker_at(t, i) && capture_at(t, i) is Some
}

/// The hardware management library's bare file name, as bytes:
/// `libnvidia-ml.so.` — a version suffix completes it.
pub open spec fn library_name_prefix() -> Seq<u8> {
    seq![
        108u8, 105u8, 98u8, 110u8, 118u8, 105u8, 100u8, 105u8, 97u8, 45u8, 109u8, 108u8, 46u8,
        115u8, 111u8, 46u8,
    ]
}

/// Builds the versioned library file name the loader should try: the bare
/// name suffixed with the driver's version triple.
pub fn library_name_for_version(version: &Vec<u8>) -> (r: Vec<u8>)
    ensures
        r@ == library_name_prefix() + version@,
{
    let mut out: Vec<u8> = Vec::new();
    out.push(108);
    out.push(105);
    out.push(98);
    out.push(110);
    out.push(118);
    out.push(105);
    out.push(100);
    out.push(105);
    out.push(97);
    out.push(45);
    out.push(109);
    out.push(108);
    out.push(46);
    out.push(115);
    out.push(111);
    out.push(46);
    proof {
        assert(out@ =~= library_name_prefix());
    }
    let ghost base = out@;
    let n = version.len();
    let mut k: usize = 0;
    while k < n
        invariant
            k <= n,
            n == version@.len(),
            base == library_name_prefix(),
            out@ =~= base + version@.subrange(0, k as int),
        decreases n - k,
    {
        out.push(version[k]);
        proof {
            assert(out@ =~= base + version@.subrange(0, k + 1 as int));
        }
        k = k + 1;
    }
    proof {
        assert(version@.subrange(0, n as int) =~= version@);
        assert(out@ =~= library_name_prefix() + version@);
    }
    out
}

/// Which probed card a freshly started service selects: the first device
/// that responded, or none when none did.
pub fn choose_card(responsive: &Vec<u32>) -> (r: Option<u32>)
    ensures
        responsive@.len() == 0 ==> r is None,
        responsive@.len() > 0 ==> r == Some(responsive@[0]),
{
    if responsive.len() == 0 {
        None
    } else {
        Some(responsive[0])
    }
}

fn marker_matches(text: &Vec<u8>, i: usize) -> (r: bool)
    requires
        i + 13 <= text@.len(),
    ensures
        r == marker_at(text@, i as int),
{
    let n = text.len();
    proof {
        assert(i + 13 <= n);
    }
    let m = text[i] == 75 && text[i + 1] == 101 && text[i + 2] == 114 && text[i + 3] == 110
        && text[i + 4] == 101 && text[i + 5] == 108 && text[i + 6] == 32 && text[i + 7] == 77
        && text[i + 8] == 111 && text[i + 9] == 100 && text[i + 10] == 117 && text[i + 11] == 108
        && text[i + 12] == 101;
    proof {
        let t = text@;
        let gi = i as int;
        let sub = t.subrange(gi, gi + 13);
        if m {
            assert forall|k: int| 0 <= k < 13 implies sub[k] == marker()[k] by {
                assert(sub[k] == t[gi + k]);
            }
            assert(sub =~= marker());
        } else {
            if sub == marker() {
                assert(t[gi] == sub[0] && sub[0] == marker()[0]);
                assert(t[gi + 1] == sub[1] && sub[1] == marker()[1]);
                assert(t[gi + 2] == sub[2] && sub[2] == marker()[2]);
                assert(t[gi + 3] == sub[3] && sub[3] == marker()[3]);
                assert(t[gi + 4] == sub[4] && sub[4] == marker()[4]);
                assert(t[gi + 5] == sub[5] && sub[5] == marker()[5]);
                assert(t[gi + 6] == sub[6] && sub[6] == marker()[6]);
                assert(t[gi + 7] == sub[7] && sub[7] == marker()[7]);
                assert(t[gi + 8] == sub[8] && sub[8] == marker()[8]);
                assert(t[gi + 9] == sub[9] && sub[9] == marker()[9]);
                assert(t[gi + 10] == sub[10] && sub[10] == marker()[10]);
                assert(t[gi + 11] == sub[11] && sub[11] == marker()[11]);
                assert(t[gi + 12] == sub[12] && sub[12] == marker()[12]);
                assert(false);
            }
        }
    }
    m
}

fn scan_spaces(text: &Vec<u8>, from: usize) -> (e: usize)
    requires
        from <= text@.len(),
    ensures
        e == space_run_end(text@, from as int),
        from <= e <= text@.len(),
{
    let mut k = from;
    while k < text.len() && text[k] == 32
        invariant
            from <= k <= text@.len(),
            space_run_end(text@, from as int) == space_run_end(text@, k as int),
        decreases text@.len() - k,
    {
        proof {
            assert(space_run_end(text@, k as int) == space_run_end(text@, k + 1 as int));
        }
        k = k + 1;
    }
    proof {
        assert(space_run_end(text@, k as int) == k as int);
    }
    k
}

fn scan_digits(text: &Vec<u8>, from: usize) -> (e: usize)
    requires
        from <= text@.len(),
    ensures
        e == digit_run_end(text@, from as int),
        from <= e <= text@.len(),
{
    let mut k = from;
    while k < text.len() && 48 <= text[k] && text[k] <= 57
        invariant
            from <= k <= text@.len(),
            digit_run_end(text@, from as int) == digit_run_end(text@, k as int),
        decreases text@.len() - k,
    {
        proof {
            assert(digit_run_end(text@, k as int) == digit_run_end(text@, k + 1 as int));
        }
        k = k + 1;
    }
    proof {
        assert(digit_run_end(text@, k as int) == k as int);
    }
    k
}

fn capture_from(text: &Vec<u8>, i: usize) -> (r: Option<(usize, usize)>)
    requires
        i + 13 <= text@.len(),
    ensures
        match r {
            Some(se) => {
                &&& capture_at(text@, i as int) == Some((se.0 as int, se.1 as int))
                &&& i + 13 < se.0 < se.1 <= text@.len()
            },
            None => capture_at(text@, i as int) is None,
        },
{
    let n = text.len();
    let s = scan_spaces(text, i + 13);
    if s == i + 13 {
        return None;
    }
    let e1 = scan_digits(text, s);
    if e1 == s {
        return None;
    }
    if e1 == n || text[e1] != DOT {
        return None;
    }
    let e2 = scan_digits(text, e1 + 1);
    if e2 == e1 + 1 {
        return None;
    }
    if e2 == n || text[e2] != DOT {
        return None;
    }
    let e3 = scan_digits(text, e2 + 1);
    if e3 == e2 + 1 {
        return None;
    }
    Some((s, e3))
}

/// Extracts the driver version triple that follows the first `Kernel
/// Module` marker in the driver version text, as the triple's exact bytes
/// (for example `555.42.02`); nothing when no marker is followed by a
/// well-formed triple.
pub fn parse_driver_version(text: &Vec<u8>) -> (r: Option<Vec<u8>>)
    ensures
        match r {
            Some(v) => exists|i: int|
                {
                    &&& #[trigger] match_at(text@, i)
                    &&& forall|i2: int| 0 <= i2 < i ==> !#[trigger] match_at(text@, i2)
                    &&& v@ == text@.subrange(
                        (capture_at(text@, i)->0).0,
                        (capture_at(text@, i)->0).1,
                    )
                },
            None => forall|i: int| !#[trigger] match_at(text@, i),
        },
{
    let n = text.len();
    if n < 13 {
        proof {
            assert forall|i: int| !#[trigger] match_at(text@, i) by {}
        }
        return None;
    }
    let mut i: usize = 0;
    while i <= n - 13
        invariant
            n == text@.len(),
            13 <= n,
            i <= n,
            forall|i2: int| 0 <= i2 < i ==> !#[trigger] match_at(text@, i2),
        decreases n - i,
    {
        if marker_matches(text, i) {
            match capture_from(text, i) {
                Some((s, e)) => {
                    let mut out: Vec<u8> = Vec::new();
                    let mut k = s;
                    while k < e
                        invariant
                            s <= k <= e <= text@.len(),
                            out@ =~= text@.subrange(s as int, k as int),
                        decreases e - k,
                    {
                        out.push(text[k]);
                        proof {
                            assert(out@ =~= text@.subrange(s as int, k + 1 as int));
                        }
                        k = k + 1;
                    }
                    proof {
                        assert(match_at(text@, i as int));
                    }
                    return Some(out);
                },
                None => {},
            }
        }
        i = i + 1;
    }
    proof {
        assert forall|i2: int| !#[trigger] match_at(text@, i2) by {
            if 0 <= i2 <= n - 13 {
                assert(!match_at(text@, i2));
            }
        }
    }
    None
}

} // verus!
