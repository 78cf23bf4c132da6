//! Parsing the encoder's device-listing diagnostic text into webcam
//! descriptors.
//!
//! The embedding application captures the listing (the encoder prints it to
//! its diagnostic stream) and hands the raw text in; which lines name a
//! camera, and what each camera is called, is decided here. A line names a
//! camera when it holds the video marker and a quoted name: the name is the
//! text between the line's first two quotes.

use vstd::prelude::*;

use crate::combiner::views_of;
use crate::sources::WebcamInfo;

verus! {

/// The first position of `c` in `l` at or after `from`, if any.
pub open spec fn spec_find(l: Seq<char>, c: char, from: int) -> Option<int>
    decreases l.len() - from,
{
    if from < 0 || from >= l.len() {
        None
    } else if l[from] == c {
        Some(from)
    } else {
        spec_find(l, c, from + 1)
    }
}

/// What [`spec_find`] returns: the first occurrence at or after `from`, or
/// nothing when the character does not occur there.
pub proof fn lemma_find_props(l: Seq<char>, c: char, from: int)
    requires
        0 <= from <= l.len(),
    ensures
        match spec_find(l, c, from) {
            Some(j) => from <= j < l.len() && l[j] == c && (forall|k: int|
                from <= k < j ==> l[k] != c),
            None => forall|k: int| from <= k < l.len() ==> l[k] != c,
        },
    decreases l.len() - from,
{
    if from < l.len() && l[from] != c {
        lemma_find_props(l, c, from + 1);
    }
}

/// Finding from `start` in `s` is finding from the front of `s` without its
/// first `start` characters.
pub proof fn lemma_find_shift(s: Seq<char>, c: char, start: int)
    requires
        0 <= start <= s.len(),
    ensures
        match spec_find(s, c, start) {
            Some(j) => spec_find(s.skip(start), c, 0) == Some(j - start),
            None => spec_find(s.skip(start), c, 0) is None,
        },
{
    lemma_find_props(s, c, start);
    lemma_find_props(s.skip(start), c, 0);
    let rem = s.skip(start);
    assert(forall|k: int| 0 <= k < rem.len() ==> rem[k] == s[start + k]);
    match spec_find(s, c, start) {
        Some(j) => {
            assert(rem[j - start] == c);
            match spec_find(rem, c, 0) {
                Some(j2) => {
                    if j2 < j - start {
                        assert(s[start + j2] != c);
                        assert(false);
                    }
                    if j2 > j - start {
                        assert(rem[j - start] != c);
                        assert(false);
                    }
                },
                None => {
                    assert(rem[j - start] != c);
                    assert(false);
                },
            }
        },
        None => {
            match spec_find(rem, c, 0) {
                Some(j2) => {
                    assert(s[start + j2] == c);
                    assert(s[start + j2] != c);
                    assert(false);
                },
                None => {
                },
            }
        },
    }
}

/// A line with its line ending's carriage return removed.
pub open spec fn spec_trim_cr(l: Seq<char>) -> Seq<char> {
    if l.len() > 0 && l[l.len() - 1] == '\r' {
        l.drop_last()
    } else {
        l
    }
}

/// The lines of `s`: split at newlines, each with a carriage return before
/// the newline removed; a final line ending is optional and yields no empty
/// last line.
pub open spec fn spec_lines(s: Seq<char>) -> Seq<Seq<char>>
    decreases s.len(),
    via spec_lines_decreases
{
    if s.len() == 0 {
        Seq::empty()
    } else {
        match spec_find(s, '\n', 0) {
            Some(j) => seq![spec_trim_cr(s.take(j))] + spec_lines(s.skip(j + 1)),
            None => seq![s],
        }
    }
}

#[via_fn]
proof fn spec_lines_decreases(s: Seq<char>) {
    if s.len() != 0 {
        lemma_find_props(s, '\n', 0);
        match spec_find(s, '\n', 0) {
            Some(j) => {
                assert(s.skip(j + 1).len() < s.len());
            },
            None => {
            },
        }
    }
}

/// `pat` occurs in `l` starting at position `i`.
pub open spec fn spec_has_at(l: Seq<char>, pat: Seq<char>, i: int) -> bool {
    &&& 0 <= i
    &&& i + pat.len() <= l.len()
    &&& l.subrange(i, i + pat.len()) == pat
}

/// `pat` occurs somewhere in `l`.
pub open spec fn spec_contains_seq(l: Seq<char>, pat: Seq<char>) -> bool {
    exists|i: int| spec_has_at(l, pat, i)
}

/// The camera name a listing line declares, if any: the line must hold the
/// video marker and at least two quotes, and the name is the text between
/// the first two.
pub open spec fn spec_webcam_name_of(l: Seq<char>) -> Option<Seq<char>> {
    if spec_contains_seq(l, "(video)"@) && spec_find(l, '"', 0) is Some {
        let q1 = spec_find(l, '"', 0)->0;
        match spec_find(l, '"', q1 + 1) {
            Some(q2) => Some(l.subrange(q1 + 1, q2)),
            None => None,
        }
    } else {
        None
    }
}

/// The camera names declared by `lines`, in order.
pub open spec fn spec_names_of_lines(lines: Seq<Seq<char>>) -> Seq<Seq<char>>
    decreases lines.len(),
{
    if lines.len() == 0 {
        Seq::empty()
    } else {
        (match spec_webcam_name_of(lines[0]) {
            Some(nm) => seq![nm],
            None => Seq::empty(),
        }) + spec_names_of_lines(lines.drop_first())
    }
}

/// The camera names declared by the whole listing text.
pub open spec fn spec_webcam_names(s: Seq<char>) -> Seq<Seq<char>> {
    spec_names_of_lines(spec_lines(s))
}

/// The characters of `s`, for random access while scanning.
fn chars_of(s: &str) -> (r: Vec<char>)
    ensures
        r@ == s@,
{
    let n = s.unicode_len();
    let mut v: Vec<char> = Vec::new();
    let mut i: usize = 0;
    while i < n
        invariant
            i <= n,
            n == s@.len(),
            v@ == s@.take(i as int),
        decreases n - i,
    {
        v.push(s.get_char(i));
        proof {
            assert(v@ =~= s@.take(i as int + 1));
        }
        i = i + 1;
    }
    proof {
        assert(s@.take(n as int) =~= s@);
    }
    v
}

/// Scans for the first `c` at or after `from`.
fn find_char_from(cs: &Vec<char>, c: char, from: usize) -> (r: Option<usize>)
    requires
        from <= cs@.len(),
    ensures
        match r {
            Some(j) => spec_find(cs@, c, from as int) == Some(j as int) && from <= j < cs@.len()
                && cs@[j as int] == c,
            None => spec_find(cs@, c, from as int) is None,
        },
{
    let mut i = from;
    while i < cs.len()
        invariant
            from <= i <= cs@.len(),
            forall|k: int| from <= k < i ==> cs@[k] != c,
        decreases cs@.len() - i,
    {
        if cs[i] == c {
            proof {
                lemma_find_props(cs@, c, from as int);
            }
            return Some(i);
        }
        i = i + 1;
    }
    proof {
        lemma_find_props(cs@, c, from as int);
    }
    None
}

/// Compares the window of `cs` at `at` against `pat`.
fn window_eq(cs: &Vec<char>, at: usize, pat: &Vec<char>) -> (r: bool)
    requires
        at + pat@.len() <= cs@.len(),
    ensures
        r == (cs@.subrange(at as int, at as int + pat@.len() as int) == pat@),
{
    let n = cs.len();
    let mut j: usize = 0;
    while j < pat.len()
        invariant
            j <= pat@.len(),
            n == cs@.len(),
            at + pat@.len() <= cs@.len(),
            forall|k: int| 0 <= k < j ==> cs@[at + k] == pat@[k],
        decreases pat@.len() - j,
    {
        if cs[at + j] != pat[j] {
            proof {
                assert(cs@.subrange(at as int, at as int + pat@.len() as int)[j as int]
                    != pat@[j as int]);
            }
            return false;
        }
        j = j + 1;
    }
    proof {
        assert(cs@.subrange(at as int, at as int + pat@.len() as int) =~= pat@);
    }
    true
}

/// Whether `pat` occurs anywhere in `cs`.
fn contains_pattern(cs: &Vec<char>, pat: &Vec<char>) -> (r: bool)
    requires
        1 <= pat@.len(),
    ensures
        r == spec_contains_seq(cs@, pat@),
{
    if pat.len() > cs.len() {
        proof {
            assert(forall|i: int| #[trigger] spec_has_at(cs@, pat@, i) ==> false);
        }
        return false;
    }
    let bound = cs.len() - pat.len();
    let mut i: usize = 0;
    while i <= bound
        invariant
            i <= bound + 1,
            bound == cs@.len() - pat@.len(),
            1 <= pat@.len(),
            bound + 1 <= usize::MAX,
            forall|i2: int| 0 <= i2 < i ==> !spec_has_at(cs@, pat@, i2),
        decreases bound + 1 - i,
    {
        if window_eq(cs, i, pat) {
            proof {
                assert(spec_has_at(cs@, pat@, i as int));
            }
            return true;
        }
        i = i + 1;
    }
    proof {
        assert(forall|i2: int| #[trigger] spec_has_at(cs@, pat@, i2) ==> 0 <= i2 <= bound);
    }
    false
}

/// The marker that distinguishes video devices in the listing.
fn video_marker() -> (r: Vec<char>)
    ensures
        r@ == "(video)"@,
{
    let mut v: Vec<char> = Vec::new();
    v.push('(');
    v.push('v');
    v.push('i');
    v.push('d');
    v.push('e');
    v.push('o');
    v.push(')');
    proof {
        reveal_strlit("(video)");
        assert(v@ =~= "(video)"@);
    }
    v
}

/// Extracts the camera name a single listing line declares, if any.
fn webcam_name_of_line(line: &str) -> (r: Option<String>)
    ensures
        match r {
            Some(nm) => spec_webcam_name_of(line@) == Some(nm@),
            None => spec_webcam_name_of(line@) is None,
        },
{
    let cs = chars_of(line);
    let marker = video_marker();
    proof {
        // The search needs the marker to be known nonempty.
        reveal_strlit("(video)");
    }
    if !contains_pattern(&cs, &marker) {
        return None;
    }
    // Materializes the length so the quote positions are known in range.
    let _len = cs.len();
    match find_char_from(&cs, '"', 0) {
        None => None,
        Some(q1) => match find_char_from(&cs, '"', q1 + 1) {
            None => None,
            Some(q2) => {
                let name = line.substring_char(q1 + 1, q2).to_owned();
                Some(name)
            },
        },
    }
}

/// Splits the listing text into its lines.
fn split_lines(text: &str) -> (r: Vec<String>)
    ensures
        views_of(r@) == spec_lines(text@),
{
    let cs = chars_of(text);
    let n = cs.len();
    let mut lines: Vec<String> = Vec::new();
    let mut start: usize = 0;
    proof {
        assert(text@.skip(0) =~= text@);
        assert(views_of(lines@) + spec_lines(text@.skip(0)) =~= spec_lines(text@));
    }
    while start < n
        invariant
            start <= n,
            n == text@.len(),
            cs@ == text@,
            views_of(lines@) + spec_lines(text@.skip(start as int)) =~= spec_lines(text@),
        decreases n - start,
    {
        let ghost rem = text@.skip(start as int);
        proof {
            lemma_find_shift(text@, '\n', start as int);
        }
        match find_char_from(&cs, '\n', start) {
            Some(j) => {
                let end = if j > start && cs[j - 1] == '\r' {
                    j - 1
                } else {
                    j
                };
                let line = text.substring_char(start, end).to_owned();
                proof {
                    assert(rem.take(j - start as int) =~= text@.subrange(start as int, j as int));
                    if j > start && text@[j - 1] == '\r' {
                        assert(spec_trim_cr(rem.take(j - start as int)) =~= text@.subrange(
                            start as int,
                            j - 1,
                        ));
                    } else {
                        assert(spec_trim_cr(rem.take(j - start as int)) =~= text@.subrange(
                            start as int,
                            j as int,
                        ));
                    }
                    assert(line@ == spec_trim_cr(rem.take(j - start as int)));
                    assert(rem.skip(j - start as int + 1) =~= text@.skip(j as int + 1));
                }
                let ghost prev = lines@;
                lines.push(line);
                proof {
                    assert(views_of(lines@) =~= views_of(prev).push(line@));
                    assert(views_of(lines@) + spec_lines(text@.skip(j as int + 1)) =~= spec_lines(
                        text@,
                    ));
                }
                start = j + 1;
            },
            None => {
                let line = text.substring_char(start, n).to_owned();
                proof {
                    assert(rem =~= text@.subrange(start as int, n as int));
                    assert(line@ == rem);
                    assert(rem.len() > 0);
                }
                let ghost prev = lines@;
                lines.push(line);
                proof {
                    assert(views_of(lines@) =~= views_of(prev).push(line@));
                    assert(text@.skip(n as int) =~= Seq::<char>::empty());
                    assert(views_of(lines@) + spec_lines(text@.skip(n as int)) =~= spec_lines(
                        text@,
                    ));
                }
                start = n;
            },
        }
    }
    proof {
        assert(text@.skip(n as int) =~= Seq::<char>::empty());
        assert(views_of(lines@) =~= spec_lines(text@));
    }
    lines
}

/// Collects the camera names of every line, in order.
fn names_of_lines(lines: &Vec<String>) -> (r: Vec<String>)
    ensures
        views_of(r@) == spec_names_of_lines(views_of(lines@)),
{
    let mut names: Vec<String> = Vec::new();
    let mut i: usize = 0;
    proof {
        assert(views_of(lines@).skip(0) =~= views_of(lines@));
        assert(views_of(names@) + spec_names_of_lines(views_of(lines@).skip(0))
            =~= spec_names_of_lines(views_of(lines@)));
    }
    while i < lines.len()
        invariant
            i <= lines@.len(),
            views_of(names@) + spec_names_of_lines(views_of(lines@).skip(i as int))
                =~= spec_names_of_lines(views_of(lines@)),
        decreases lines@.len() - i,
    {
        let ghost tail = views_of(lines@).skip(i as int);
        proof {
            assert(tail[0] == lines@[i as int]@);
            assert(tail.drop_first() =~= views_of(lines@).skip(i as int + 1));
        }
        let ghost prev = names@;
        match webcam_name_of_line(lines[i].as_str()) {
            Some(name) => {
                names.push(name);
                proof {
                    assert(views_of(names@) =~= views_of(prev).push(name@));
                }
            },
            None => {
            },
        }
        proof {
            assert(views_of(names@) + spec_names_of_lines(views_of(lines@).skip(i as int + 1))
                =~= spec_names_of_lines(views_of(lines@)));
        }
        i = i + 1;
    }
    proof {
        assert(views_of(lines@).skip(lines@.len() as int) =~= Seq::<Seq<char>>::empty());
        assert(views_of(names@) =~= spec_names_of_lines(views_of(lines@)));
    }
    names
}

/// Parses the encoder's device listing into webcam descriptors, one per
/// line that declares a camera, each named and addressed by the declared
/// name. An empty or unreadable listing falls back to a single default
/// device, so capture can still be attempted.
pub fn parse_webcam_listing(text: &str) -> (r: Vec<WebcamInfo>)
    ensures
        spec_webcam_names(text@).len() == 0 ==> r@.len() == 1 && r@[0].id@ == "0"@
            && r@[0].name@ == "Default Webcam"@,
        spec_webcam_names(text@).len() > 0 ==> r@.len() == spec_webcam_names(text@).len() && (
        forall|i: int|
            0 <= i < r@.len() ==> (#[trigger] r@[i].id@) == spec_webcam_names(text@)[i]
                && r@[i].name@ == spec_webcam_names(text@)[i]),
{
    let lines = split_lines(text);
    let names = names_of_lines(&lines);
    let mut webcams: Vec<WebcamInfo> = Vec::new();
    if names.len() == 0 {
        webcams.push(
            WebcamInfo { id: String::from_str("0"), name: String::from_str("Default Webcam") },
        );
        return webcams;
    }
    let mut i: usize = 0;
    while i < names.len()
        invariant
            i <= names@.len(),
            webcams@.len() == i,
            forall|k: int|
                0 <= k < i ==> (#[trigger] webcams@[k].id@) == views_of(names@)[k]
                    && webcams@[k].name@ == views_of(names@)[k],
        decreases names@.len() - i,
    {
        let name = names[i].clone();
        webcams.push(WebcamInfo { id: name.clone(), name });
        i = i + 1;
    }
    webcams
}

} // verus!
