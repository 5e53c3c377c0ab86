use vstd::prelude::*;
use vstd::string::*;
use vstd::utf8::{encode_utf8, is_char_boundary};

verus! {

/// The leftmost match of `pattern` in the text whose UTF-8 encoding is
/// `haystack`, at or after byte offset `start`: the byte span of the whole
/// match and the text of each capture group after the whole match (`None`
/// for a group that did not take part). `None` when nothing matches or when
/// `pattern` is not a valid expression.
pub uninterp spec fn regex_captures_at(
    pattern: Seq<char>,
    haystack: Seq<u8>,
    start: int,
) -> Option<(int, int, Seq<Option<Seq<char>>>)>;

/// The result of `str::to_lowercase`.
pub uninterp spec fn lower_of(s: Seq<char>) -> Seq<char>;

/// One match of a pattern: byte offsets of the whole match, and the capture
/// groups after the whole match.
pub struct RegexMatch {
    pub start: usize,
    pub end: usize,
    pub groups: Vec<Option<String>>,
}

impl RegexMatch {
    pub open spec fn spec_view(&self) -> (int, int, Seq<Option<Seq<char>>>) {
        (self.start as int, self.end as int, self.groups.deep_view())
    }
}

/// Relies on `regex::Regex::new` (re-exported by lazy_regex) to compile
/// `pattern` and on `Regex::captures_at` to find its leftmost match in `text`
/// starting at byte offset `from`; `captures_at` panics when `from` is past
/// the end, and reports spans inside `from..text.len()` that fall on UTF-8
/// character boundaries.
#[verifier::external_body]
pub(crate) fn find_at(pattern: &str, text: &str, from: usize) -> (r: Option<RegexMatch>)
    requires
        from <= text.spec_bytes().len(),
    ensures
        r is None <==> regex_captures_at(pattern@, text.spec_bytes(), from as int) is None,
        r matches Some(m) ==> regex_captures_at(pattern@, text.spec_bytes(), from as int) == Some(
            m.spec_view(),
        ),
        r matches Some(m) ==> from <= m.start <= m.end <= text.spec_bytes().len(),
        r matches Some(m) ==> is_char_boundary(text.spec_bytes(), m.start as int),
{
    let re = lazy_regex::Regex::new(pattern).ok()?;
    let caps = re.captures_at(text, from)?;
    let whole = caps.get(0)?;
    Some(RegexMatch {
        start: whole.start(),
        end: whole.end(),
        groups: caps.iter().skip(1).map(|g| g.map(|m| m.as_str().to_string())).collect(),
    })
}

/// Relies on `str::to_lowercase`: its result depends on the characters alone,
/// and the empty string stays empty.
#[verifier::external_body]
pub(crate) fn lowercase(s: &str) -> (r: String)
    ensures
        r@ == lower_of(s@),
        s@.len() == 0 ==> r@.len() == 0,
{
    s.to_lowercase()
}

/// The characters of `s`, in order.
pub fn chars_of(s: &str) -> (v: Vec<char>)
    ensures
        v@ == s@,
{
    let n = s.unicode_len();
    let mut v: Vec<char> = Vec::new();
    let mut i: usize = 0;
    while i < n
        invariant
            n == s@.len(),
            i <= n,
            v@ == s@.subrange(0, i as int),
        decreases n - i,
    {
        v.push(s.get_char(i));
        i = i + 1;
    }
    assert(v@ =~= s@);
    v
}

/// `needle` occurs in `hay` at position `i`.
pub open spec fn occurs_at(hay: Seq<char>, needle: Seq<char>, i: int) -> bool {
    0 <= i && i + needle.len() <= hay.len() && hay.subrange(i, i + needle.len()) == needle
}

/// `needle` occurs somewhere in `hay`.
pub open spec fn occurs_in(hay: Seq<char>, needle: Seq<char>) -> bool {
    exists|i: int| occurs_at(hay, needle, i)
}

fn occurs_at_exec(hay: &Vec<char>, needle: &Vec<char>, i: usize) -> (r: bool)
    requires
        i + needle@.len() <= hay@.len(),
    ensures
        r == occurs_at(hay@, needle@, i as int),
{
    let nl = needle.len();
    let hl = hay.len();
    let mut j: usize = 0;
    while j < nl
        invariant
            nl == needle@.len(),
            hl == hay@.len(),
            i + nl <= hl,
            j <= nl,
            forall|k: int| 0 <= k < j ==> hay@[i + k] == needle@[k],
        decreases nl - j,
    {
        if hay[i + j] != needle[j] {
            assert(hay@.subrange(i as int, i + needle@.len())[j as int] != needle@[j as int]);
            return false;
        }
        j = j + 1;
    }
    assert(hay@.subrange(i as int, i + needle@.len()) =~= needle@);
    true
}

/// Whether `needle` occurs in `hay`.
pub fn contains_text(hay: &str, needle: &str) -> (r: bool)
    ensures
        r == occurs_in(hay@, needle@),
{
    let h = chars_of(hay);
    let n = chars_of(needle);
    let hl = h.len();
    let nl = n.len();
    if nl > hl {
        assert forall|i: int| !occurs_at(hay@, needle@, i) by {}
        return false;
    }
    let last = hl - nl;
    let mut i: usize = 0;
    loop
        invariant
            h@ == hay@,
            n@ == needle@,
            hl == h@.len(),
            nl == n@.len(),
            last == hl - nl,
            i <= last,
            forall|k: int| 0 <= k < i ==> !occurs_at(hay@, needle@, k),
        decreases last - i,
    {
        if occurs_at_exec(&h, &n, i) {
            return true;
        }
        if i == last {
            assert forall|k: int| !occurs_at(hay@, needle@, k) by {
                if 0 <= k < i {
                }
            }
            return false;
        }
        i = i + 1;
    }
}

/// The groups that took part in a match, in order.
pub open spec fn present_groups(groups: Seq<Option<Seq<char>>>) -> Seq<Seq<char>>
    decreases groups.len(),
{
    if groups.len() == 0 {
        Seq::empty()
    } else {
        let rest = present_groups(groups.drop_last());
        match groups.last() {
            Some(g) => rest.push(g),
            None => rest,
        }
    }
}

/// The template `t` from position `i` on, with each `{}` replaced in turn by
/// the next of `caps` (from index `k`); a `{}` left without a capture stays.
pub open spec fn fill_from(t: Seq<char>, i: int, caps: Seq<Seq<char>>, k: int) -> Seq<char>
    decreases t.len() - i,
{
    if i < 0 || i >= t.len() {
        Seq::empty()
    } else if i + 1 < t.len() && t[i] == '{' && t[i + 1] == '}' && 0 <= k < caps.len() {
        caps[k] + fill_from(t, i + 2, caps, k + 1)
    } else {
        seq![t[i]] + fill_from(t, i + 1, caps, k)
    }
}

/// The template `t` filled positionally with `caps`.
pub open spec fn fill_template(t: Seq<char>, caps: Seq<Seq<char>>) -> Seq<char> {
    fill_from(t, 0, caps, 0)
}

fn present_captures(groups: &Vec<Option<String>>) -> (caps: Vec<String>)
    ensures
        caps.deep_view() == present_groups(groups.deep_view()),
{
    let mut caps: Vec<String> = Vec::new();
    let mut g: usize = 0;
    while g < groups.len()
        invariant
            g <= groups@.len(),
            caps.deep_view() == present_groups(groups.deep_view().subrange(0, g as int)),
        decreases groups@.len() - g,
    {
        let ghost before = groups.deep_view().subrange(0, g as int);
        let ghost after = groups.deep_view().subrange(0, g + 1);
        assert(after.drop_last() =~= before);
        match &groups[g] {
            Some(s) => {
                caps.push(s.clone());
                assert(caps.deep_view() =~= present_groups(before).push(s@));
            },
            None => {},
        }
        g = g + 1;
    }
    assert(groups.deep_view().subrange(0, groups@.len() as int) =~= groups.deep_view());
    caps
}

/// Renders `template`, replacing its `{}` placeholders from left to right by
/// the groups that took part in the match.
pub fn render_template(template: &str, groups: &Vec<Option<String>>) -> (r: String)
    ensures
        r@ == fill_template(template@, present_groups(groups.deep_view())),
{
    let caps = present_captures(groups);
    let ghost cv = caps.deep_view();
    let t = chars_of(template);
    let n = t.len();
    let mut out = String::new();
    let mut seg: usize = 0;
    let mut i: usize = 0;
    let mut k: usize = 0;
    while i < n
        invariant
            t@ == template@,
            n == t@.len(),
            cv == caps.deep_view(),
            seg <= i <= n,
            k <= caps@.len(),
            fill_template(t@, cv) == out@ + t@.subrange(seg as int, i as int) + fill_from(
                t@,
                i as int,
                cv,
                k as int,
            ),
        decreases n - i,
    {
        if i + 1 < n && t[i] == '{' && t[i + 1] == '}' && k < caps.len() {
            let piece = template.substring_char(seg, i);
            out.append(piece);
            out.append(caps[k].as_str());
            assert(cv[k as int] == caps@[k as int]@);
            assert(out@ + t@.subrange(i + 2, i + 2) + fill_from(t@, i + 2, cv, k + 1) =~= out@
                + fill_from(t@, i + 2, cv, k + 1));
            i = i + 2;
            seg = i;
            k = k + 1;
        } else {
            assert(t@.subrange(seg as int, i + 1) =~= t@.subrange(seg as int, i as int).push(
                t@[i as int],
            ));
            i = i + 1;
        }
    }
    let tail = template.substring_char(seg, n);
    out.append(tail);
    assert(fill_from(t@, n as int, cv, k as int) =~= Seq::empty());
    out
}

/// `s` from position `i` on, with each leftmost non-overlapping occurrence
/// of `from` replaced by `to`. An empty `from` occurs before every character
/// and at the end.
pub open spec fn replaced_from(s: Seq<char>, i: int, from: Seq<char>, to: Seq<char>) -> Seq<char>
    decreases s.len() - i,
{
    if i < 0 || i > s.len() {
        Seq::empty()
    } else if from.len() == 0 {
        if i == s.len() {
            to
        } else {
            to + seq![s[i]] + replaced_from(s, i + 1, from, to)
        }
    } else if i == s.len() {
        Seq::empty()
    } else if occurs_at(s, from, i) {
        to + replaced_from(s, i + from.len(), from, to)
    } else {
        seq![s[i]] + replaced_from(s, i + 1, from, to)
    }
}

/// `s` with every occurrence of `from` replaced by `to`, scanning from the
/// left, as `str::replace` does.
pub open spec fn replaced(s: Seq<char>, from: Seq<char>, to: Seq<char>) -> Seq<char> {
    replaced_from(s, 0, from, to)
}

fn interleave(s: &str, to: &str) -> (r: String)
    ensures
        r@ == replaced(s@, Seq::empty(), to@),
{
    let n = s.unicode_len();
    let mut out = String::new();
    let mut i: usize = 0;
    while i < n
        invariant
            n == s@.len(),
            i <= n,
            replaced(s@, Seq::empty(), to@) == out@ + replaced_from(s@, i as int, Seq::empty(), to@),
        decreases n - i,
    {
        out.append(to);
        let one = s.substring_char(i, i + 1);
        assert(one@ =~= seq![s@[i as int]]);
        out.append(one);
        i = i + 1;
    }
    out.append(to);
    out
}

/// Replaces every occurrence of `from` in `s` by `to`.
pub fn replace_all(s: &str, from: &str, to: &str) -> (r: String)
    ensures
        r@ == replaced(s@, from@, to@),
{
    let c = chars_of(s);
    let f = chars_of(from);
    let n = c.len();
    let fl = f.len();
    if fl == 0 {
        assert(from@ =~= Seq::<char>::empty());
        return interleave(s, to);
    }
    let mut out = String::new();
    let mut seg: usize = 0;
    let mut i: usize = 0;
    while i < n
        invariant
            c@ == s@,
            f@ == from@,
            n == c@.len(),
            fl == f@.len(),
            fl > 0,
            seg <= i <= n,
            replaced(s@, from@, to@) == out@ + s@.subrange(seg as int, i as int) + replaced_from(
                s@,
                i as int,
                from@,
                to@,
            ),
        decreases n - i,
    {
        if fl <= n - i && occurs_at_exec(&c, &f, i) {
            let piece = s.substring_char(seg, i);
            out.append(piece);
            out.append(to);
            assert(out@ + s@.subrange(i + fl, i + fl) + replaced_from(s@, i + fl, from@, to@) =~= out@
                + replaced_from(s@, i + fl, from@, to@));
            i = i + fl;
            seg = i;
        } else {
            assert(!occurs_at(s@, from@, i as int));
            assert(s@.subrange(seg as int, i + 1) =~= s@.subrange(seg as int, i as int).push(
                s@[i as int],
            ));
            i = i + 1;
        }
    }
    let tail = s.substring_char(seg, n);
    out.append(tail);
    assert(replaced_from(s@, n as int, from@, to@) =~= Seq::empty());
    out
}

/// The text of the first capture group of the leftmost match of `pattern`
/// in `text`, when there is a match and that group took part in it.
pub open spec fn spec_first_capture(pattern: Seq<char>, text: Seq<char>) -> Option<Seq<char>> {
    match regex_captures_at(pattern, encode_utf8(text), 0) {
        Some(m) => if m.2.len() > 0 {
            m.2[0]
        } else {
            None
        },
        None => None,
    }
}

/// Finds the first capture group of the leftmost match of `pattern`.
pub fn first_capture(pattern: &str, text: &str) -> (r: Option<String>)
    ensures
        match r {
            Some(c) => spec_first_capture(pattern@, text@) == Some(c@),
            None => spec_first_capture(pattern@, text@) is None,
        },
{
    match find_at(pattern, text, 0) {
        None => None,
        Some(m) => {
            if m.groups.len() > 0 {
                match &m.groups[0] {
                    Some(c) => Some(c.clone()),
                    None => None,
                }
            } else {
                None
            }
        },
    }
}

/// Whether `a` and `b` hold the same characters.
pub fn same_text(a: &str, b: &str) -> (r: bool)
    ensures
        r == (a@ == b@),
{
    let x = chars_of(a);
    let y = chars_of(b);
    if x.len() != y.len() {
        return false;
    }
    let r = occurs_at_exec(&x, &y, 0);
    assert(r ==> x@.subrange(0, y@.len() as int) == y@);
    assert(x@.subrange(0, x@.len() as int) =~= x@);
    r
}

/// Makes a Whatsminer reply parseable: bare `inf` and `nan` become strings
/// and trailing commas before `}` are dropped.
pub fn sanitize_whatsminer(s: &str) -> (r: String)
    ensures
        r@ == replaced(
            replaced(replaced(s@, "inf"@, "\"inf\""@), "nan"@, "\"nan\""@),
            ",}"@,
            "}"@,
        ),
{
    let a = replace_all(s, "inf", "\"inf\"");
    let b = replace_all(a.as_str(), "nan", "\"nan\"");
    replace_all(b.as_str(), ",}", "}")
}

/// Turns the bracketed list of a Whatsminer error-code reply into an object,
/// as the firmware meant it: `[` becomes `{` and `]` becomes `}`.
pub fn bracket_list_to_object(s: &str) -> (r: String)
    ensures
        r@ == replaced(replaced(s@, "["@, "{"@), "]"@, "}"@),
{
    let a = replace_all(s, "[", "{");
    replace_all(a.as_str(), "]", "}")
}

/// Removes the NUL padding that some firmwares append to socket replies.
pub fn strip_nul(s: &str) -> (r: String)
    ensures
        r@ == replaced(s@, "\0"@, ""@),
{
    replace_all(s, "\0", "")
}

} // verus!
