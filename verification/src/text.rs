//! Character-level text operations used throughout the crate.
//!
//! All lengths here count Unicode scalar values (`char`s), as the model-facing
//! bounds do.
use vstd::prelude::*;

verus! {

/// The first `n` characters of `s`, or all of `s` when it is shorter.
pub open spec fn take_at_most(s: Seq<char>, n: int) -> Seq<char> {
    if n < s.len() {
        s.take(n)
    } else {
        s
    }
}

/// Whether `s` ends with `t`.
pub open spec fn ends_with(s: Seq<char>, t: Seq<char>) -> bool {
    t.len() <= s.len() && s.subrange(s.len() - t.len(), s.len() as int) == t
}

/// Copies at most the first `n` characters of `s`.
pub fn take_chars(s: &str, n: usize) -> (res: String)
    ensures
        res@ == take_at_most(s@, n as int),
{
    let len = s.unicode_len();
    let k = if n < len { n } else { len };
    let part = s.substring_char(0, k);
    proof {
        if n >= len {
            assert(s@.subrange(0, len as int) =~= s@);
        }
    }
    String::from_str(part)
}

/// `a` followed by `b`.
pub fn concat(a: &str, b: &str) -> (res: String)
    ensures
        res@ == a@ + b@,
{
    let mut r = String::from_str(a);
    r.append(b);
    r
}

/// Whether two strings hold the same characters.
pub fn str_eq(a: &str, b: &str) -> (res: bool)
    ensures
        res == (a@ == b@),
{
    let la = a.unicode_len();
    let lb = b.unicode_len();
    if la != lb {
        return false;
    }
    let mut i: usize = 0;
    while i < la
        invariant
            la == a@.len(),
            lb == b@.len(),
            la == lb,
            i <= la,
            forall|j: int| 0 <= j < i ==> a@[j] == b@[j],
        decreases la - i,
    {
        if a.get_char(i) != b.get_char(i) {
            return false;
        }
        i = i + 1;
    }
    assert(a@ =~= b@);
    true
}

/// The code point of `c` after ASCII lower-casing: `A`..=`Z` map to
/// `a`..=`z`, every other character is kept.
pub open spec fn ascii_lower_code(c: char) -> u32 {
    if 65 <= (c as u32) <= 90 {
        (c as u32 + 32) as u32
    } else {
        c as u32
    }
}

/// Two character sequences match when ASCII case is ignored.
pub open spec fn eq_ignore_ascii_case_spec(a: Seq<char>, b: Seq<char>) -> bool {
    &&& a.len() == b.len()
    &&& forall|i: int| 0 <= i < a.len() ==> ascii_lower_code(#[trigger] a[i]) == ascii_lower_code(b[i])
}

fn lower_code(c: char) -> (res: u32)
    ensures
        res == ascii_lower_code(c),
{
    let u = c as u32;
    if 65 <= u && u <= 90 {
        u + 32
    } else {
        u
    }
}

/// Whether `a` and `b` are equal when ASCII letters are compared without
/// regard to case (other characters must be equal as they are).
pub fn eq_ignore_ascii_case(a: &str, b: &str) -> (res: bool)
    ensures
        res == eq_ignore_ascii_case_spec(a@, b@),
{
    let la = a.unicode_len();
    let lb = b.unicode_len();
    if la != lb {
        return false;
    }
    let mut i: usize = 0;
    while i < la
        invariant
            la == a@.len(),
            lb == b@.len(),
            la == lb,
            i <= la,
            forall|j: int| 0 <= j < i ==> ascii_lower_code(#[trigger] a@[j]) == ascii_lower_code(b@[j]),
        decreases la - i,
    {
        if lower_code(a.get_char(i)) != lower_code(b.get_char(i)) {
            return false;
        }
        i = i + 1;
    }
    true
}

/// Unicode's `White_Space` property.
pub open spec fn is_white_space(c: char) -> bool {
    let u = c as u32;
    ||| 0x09 <= u <= 0x0d
    ||| u == 0x20
    ||| u == 0x85
    ||| u == 0xa0
    ||| u == 0x1680
    ||| 0x2000 <= u <= 0x200a
    ||| u == 0x2028
    ||| u == 0x2029
    ||| u == 0x202f
    ||| u == 0x205f
    ||| u == 0x3000
}

/// Whether `c` has the `White_Space` property.
pub fn is_whitespace_char(c: char) -> (res: bool)
    ensures
        res == is_white_space(c),
{
    let u = c as u32;
    (0x09 <= u && u <= 0x0d) || u == 0x20 || u == 0x85 || u == 0xa0 || u == 0x1680 || (0x2000
        <= u && u <= 0x200a) || u == 0x2028 || u == 0x2029 || u == 0x202f || u == 0x205f || u
        == 0x3000
}

/// A text is blank when every character of it is white space (the empty
/// text included): trimming it leaves nothing.
pub open spec fn is_blank_spec(s: Seq<char>) -> bool {
    forall|i: int| 0 <= i < s.len() ==> is_white_space(#[trigger] s[i])
}

/// Whether `s` is blank: nothing is left of it once surrounding white space
/// is trimmed.
pub fn is_blank(s: &str) -> (res: bool)
    ensures
        res == is_blank_spec(s@),
{
    let len = s.unicode_len();
    let mut i: usize = 0;
    while i < len
        invariant
            len == s@.len(),
            i <= len,
            forall|j: int| 0 <= j < i ==> is_white_space(#[trigger] s@[j]),
        decreases len - i,
    {
        if !is_whitespace_char(s.get_char(i)) {
            return false;
        }
        i = i + 1;
    }
    true
}

/// The parts one after another, with `sep` between each two.
pub open spec fn join(parts: Seq<Seq<char>>, sep: Seq<char>) -> Seq<char>
    decreases parts.len(),
{
    if parts.len() == 0 {
        Seq::empty()
    } else if parts.len() == 1 {
        parts[0]
    } else {
        join(parts.drop_last(), sep) + sep + parts.last()
    }
}

/// Joins the texts of `parts` with `sep` between each two.
pub fn join_strings(parts: &Vec<String>, sep: &str) -> (res: String)
    ensures
        res@ == join(parts@.map_values(|x: String| x@), sep@),
{
    let ghost views = parts@.map_values(|x: String| x@);
    let mut res = String::new();
    let mut i: usize = 0;
    while i < parts.len()
        invariant
            i <= parts@.len(),
            views == parts@.map_values(|x: String| x@),
            res@ == join(views.take(i as int), sep@),
        decreases parts.len() - i,
    {
        proof {
            assert(views.take(i + 1).drop_last() =~= views.take(i as int));
            assert(views.take(i + 1).last() == parts@[i as int]@);
        }
        if i == 0 {
            proof {
                assert(views.take(1) =~= seq![parts@[0]@]);
            }
            res.append(parts[i].as_str());
        } else {
            res.append(sep);
            res.append(parts[i].as_str());
        }
        i = i + 1;
    }
    assert(views.take(parts@.len() as int) =~= views);
    res
}

/// Cutting keeps a prefix: the first `n` characters of `s` (all of `s` when
/// it is shorter), in order.
pub proof fn cutting_keeps_a_prefix(s: Seq<char>, n: int)
    requires
        n >= 0,
    ensures
        take_at_most(s, n).len() == if n < s.len() { n } else { s.len() as int },
        forall|i: int| 0 <= i < take_at_most(s, n).len() ==> #[trigger] take_at_most(s, n)[i] == s[i],
{
}

/// ASCII lower-casing maps `A`..=`Z` to `a`..=`z` and keeps every other
/// character; matching without regard to ASCII case is an equivalence that
/// needs equal lengths.
pub proof fn ascii_case_matching(a: Seq<char>, b: Seq<char>, c: char)
    ensures
        ('A' <= c <= 'Z') ==> ascii_lower_code(c) == (c as u32) + 32,
        !('A' <= c <= 'Z') ==> ascii_lower_code(c) == c as u32,
        eq_ignore_ascii_case_spec(a, a),
        eq_ignore_ascii_case_spec(a, b) ==> eq_ignore_ascii_case_spec(b, a),
        eq_ignore_ascii_case_spec(a, b) ==> a.len() == b.len(),
        a == b ==> eq_ignore_ascii_case_spec(a, b),
{
}

/// The usual white space is white space, and no visible ASCII character is.
pub proof fn white_space_of_ascii(c: char)
    ensures
        c == ' ' || c == '\t' || c == '\n' || c == '\r' ==> is_white_space(c),
        0x21 <= (c as u32) <= 0x7e ==> !is_white_space(c),
        is_blank_spec(Seq::<char>::empty()),
        is_blank_spec(seq![c]) <==> is_white_space(c),
{
    if is_blank_spec(seq![c]) {
        assert(seq![c][0] == c);
    }
}

/// Joining puts the separator between each two parts and nowhere else:
/// nothing joins to nothing, one part joins to itself, and joining one more
/// part adds the separator and the part at the end; the length is the parts'
/// lengths and one separator per gap.
pub proof fn joining_puts_separators_between(parts: Seq<Seq<char>>, sep: Seq<char>, x: Seq<char>)
    ensures
        join(Seq::<Seq<char>>::empty(), sep) == Seq::<char>::empty(),
        join(seq![x], sep) == x,
        parts.len() > 0 ==> join(parts.push(x), sep) == join(parts, sep) + sep + x,
{
    assert(parts.push(x).drop_last() =~= parts);
    assert(parts.push(x).last() == x);
    assert(seq![x][0] == x);
}

} // verus!
