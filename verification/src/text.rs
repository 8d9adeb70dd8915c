//! Text as sequences of characters: the small vocabulary of string
//! operations that the rest of the crate speaks in.
//!
//! Every operation is stated over `Seq<char>` and has an executable
//! counterpart proved against that statement. Three functions of the
//! standard library are taken on trust; they stand first.

use vstd::prelude::*;

verus! {

/// `String::push` appends one character to the end of the string.
pub assume_specification[ String::push ](s: &mut String, c: char)
    ensures
        final(s)@ == old(s)@.push(c),
;

/// `String::pop` removes the last character and returns it; on an empty
/// string it returns `None` and changes nothing.
pub assume_specification[ String::pop ](s: &mut String) -> (r: Option<char>)
    ensures
        old(s)@.len() == 0 ==> r is None && final(s)@ == old(s)@,
        old(s)@.len() > 0 ==> r == Some(old(s)@.last()) && final(s)@ == old(s)@.drop_last(),
;

/// Whether `c` has the Unicode property `White_Space`. Which characters
/// have it is left to the standard library: nothing here depends on the
/// list.
pub uninterp spec fn white_space(c: char) -> bool;

/// `char::is_whitespace` reports the Unicode property `White_Space`.
pub assume_specification[ char::is_whitespace ](c: char) -> (b: bool)
    ensures
        b == white_space(c),
;

/// A class of characters that can be stripped from the ends of a text.
#[derive(Clone, Copy, PartialEq, Eq, Structural, Debug)]
pub enum CharClass {
    /// Unicode white space.
    Whitespace,
    /// The double quote.
    Quote,
    /// `/` and `\`.
    PathSeparator,
}

impl CharClass {
    /// Whether `c` is of this class.
    pub open spec fn has(self, c: char) -> bool {
        match self {
            CharClass::Whitespace => white_space(c),
            CharClass::Quote => c == '"',
            CharClass::PathSeparator => c == '/' || c == '\\',
        }
    }

    /// Whether `c` is of this class.
    pub fn contains(self, c: char) -> (b: bool)
        ensures
            b == self.has(c),
    {
        match self {
            CharClass::Whitespace => c.is_whitespace(),
            CharClass::Quote => c == '"',
            CharClass::PathSeparator => c == '/' || c == '\\',
        }
    }
}

/// `s` without its longest prefix of characters of `class`.
pub open spec fn drop_leading(s: Seq<char>, class: CharClass) -> Seq<char>
    decreases s.len(),
{
    if s.len() > 0 && class.has(s[0]) {
        drop_leading(s.drop_first(), class)
    } else {
        s
    }
}

/// `s` without its longest suffix of characters of `class`.
pub open spec fn drop_trailing(s: Seq<char>, class: CharClass) -> Seq<char>
    decreases s.len(),
{
    if s.len() > 0 && class.has(s.last()) {
        drop_trailing(s.drop_last(), class)
    } else {
        s
    }
}

/// The longest suffix of `s` that holds no character of `class`.
pub open spec fn trailing_run(s: Seq<char>, class: CharClass) -> Seq<char>
    decreases s.len(),
{
    if s.len() > 0 && !class.has(s.last()) {
        trailing_run(s.drop_last(), class).push(s.last())
    } else {
        Seq::empty()
    }
}

/// `s` without the characters of `class`, wherever they stand.
pub open spec fn without(s: Seq<char>, class: CharClass) -> Seq<char>
    decreases s.len(),
{
    if s.len() == 0 {
        s
    } else if class.has(s.last()) {
        without(s.drop_last(), class)
    } else {
        without(s.drop_last(), class).push(s.last())
    }
}

/// `s` with the characters of `class` removed from both ends.
pub open spec fn strip(s: Seq<char>, class: CharClass) -> Seq<char> {
    drop_trailing(drop_leading(s, class), class)
}

/// `drop_leading` drops a prefix that is all of `class` and stops at the
/// first character that is not. Returns the length of the prefix.
pub proof fn lemma_drop_leading(s: Seq<char>, class: CharClass) -> (a: int)
    ensures
        0 <= a <= s.len(),
        drop_leading(s, class) == s.skip(a),
        forall|i: int| 0 <= i < a ==> class.has(s[i]),
        a < s.len() ==> !class.has(s[a]),
    decreases s.len(),
{
    if s.len() > 0 && class.has(s[0]) {
        let t = s.drop_first();
        let k = lemma_drop_leading(t, class);
        assert(t.skip(k) =~= s.skip(k + 1));
        assert forall|i: int| 0 <= i < k + 1 implies class.has(s[i]) by {
            if i > 0 {
                assert(s[i] == t[i - 1]);
            }
        }
        if k + 1 < s.len() {
            assert(s[k + 1] == t[k]);
        }
        k + 1
    } else {
        assert(s.skip(0) =~= s);
        0
    }
}

/// `drop_trailing` drops a suffix that is all of `class` and stops at the
/// last character that is not. Returns the length of what is left.
pub proof fn lemma_drop_trailing(s: Seq<char>, class: CharClass) -> (b: int)
    ensures
        0 <= b <= s.len(),
        drop_trailing(s, class) == s.take(b),
        forall|i: int| b <= i < s.len() ==> class.has(s[i]),
        b > 0 ==> !class.has(s[b - 1]),
    decreases s.len(),
{
    if s.len() > 0 && class.has(s.last()) {
        let t = s.drop_last();
        let k = lemma_drop_trailing(t, class);
        assert(t.take(k) =~= s.take(k));
        assert forall|i: int| k <= i < s.len() implies class.has(s[i]) by {
            if i < t.len() {
                assert(s[i] == t[i]);
            }
        }
        if k > 0 {
            assert(s[k - 1] == t[k - 1]);
        }
        k
    } else {
        assert(s.take(s.len() as int) =~= s);
        s.len() as int
    }
}

/// What `strip` leaves of `s` is one stretch of it, `s[a..b]`, that neither
/// begins nor ends with a character of `class`; all that stands before and
/// after it is of `class`. Returns the bounds of the stretch.
pub proof fn lemma_strip(s: Seq<char>, class: CharClass) -> (r: (int, int))
    ensures
        0 <= r.0 <= r.1 <= s.len(),
        strip(s, class) == s.subrange(r.0, r.1),
        forall|i: int| 0 <= i < r.0 ==> class.has(s[i]),
        forall|i: int| r.1 <= i < s.len() ==> class.has(s[i]),
        r.0 < r.1 ==> !class.has(s[r.0]) && !class.has(s[r.1 - 1]),
{
    let a = lemma_drop_leading(s, class);
    let t = s.skip(a);
    let k = lemma_drop_trailing(t, class);
    assert(t.take(k) =~= s.subrange(a, a + k));
    assert forall|i: int| a + k <= i < s.len() implies class.has(s[i]) by {
        assert(s[i] == t[i - a]);
    }
    if k > 0 {
        assert(t[k - 1] == s[a + k - 1]);
    }
    (a, a + k)
}

/// `s` without leading and trailing white space.
pub open spec fn trimmed(s: Seq<char>) -> Seq<char> {
    strip(s, CharClass::Whitespace)
}

/// `s` without leading and trailing double quotes.
pub open spec fn unquoted(s: Seq<char>) -> Seq<char> {
    strip(s, CharClass::Quote)
}

/// `s` between double quotes.
pub open spec fn quoted(s: Seq<char>) -> Seq<char> {
    seq!['"'] + s + seq!['"']
}

/// Whether `pat` stands in `s` at index `i`.
pub open spec fn occurs_at(s: Seq<char>, pat: Seq<char>, i: int) -> bool {
    0 <= i && i + pat.len() <= s.len() && s.subrange(i, i + pat.len()) =~= pat
}

/// The index of the first occurrence of `pat` in `s`.
pub open spec fn find(s: Seq<char>, pat: Seq<char>) -> Option<int>
    decreases s.len(),
{
    if s.len() < pat.len() {
        None
    } else if s.take(pat.len() as int) =~= pat {
        Some(0)
    } else {
        match find(s.drop_first(), pat) {
            Some(i) => Some(i + 1),
            None => None,
        }
    }
}

/// `find` returns the least index at which `pat` occurs, and `None` exactly
/// when there is none.
pub proof fn lemma_find(s: Seq<char>, pat: Seq<char>)
    ensures
        match find(s, pat) {
            Some(i) => occurs_at(s, pat, i) && forall|j: int|
                0 <= j < i ==> !occurs_at(s, pat, j),
            None => forall|j: int| !occurs_at(s, pat, j),
        },
    decreases s.len(),
{
    if s.len() < pat.len() {
    } else if s.take(pat.len() as int) =~= pat {
        assert(s.subrange(0, 0 + pat.len() as int) =~= s.take(pat.len() as int));
    } else {
        let t = s.drop_first();
        lemma_find(t, pat);
        assert(!occurs_at(s, pat, 0)) by {
            assert(s.subrange(0, 0 + pat.len() as int) =~= s.take(pat.len() as int));
        }
        assert forall|j: int| occurs_at(s, pat, j + 1) == occurs_at(t, pat, j) by {
            if 0 <= j && j + 1 + pat.len() <= s.len() {
                assert(s.subrange(j + 1, j + 1 + pat.len()) =~= t.subrange(j, j + pat.len()));
            }
        }
        match find(t, pat) {
            Some(i) => {
                assert(occurs_at(s, pat, i + 1));
                assert forall|j: int| 0 <= j < i + 1 implies !occurs_at(s, pat, j) by {
                    if j > 0 {
                        assert(occurs_at(s, pat, (j - 1) + 1) == occurs_at(t, pat, j - 1));
                    }
                }
            },
            None => {
                assert forall|j: int| !occurs_at(s, pat, j) by {
                    if j > 0 {
                        assert(occurs_at(s, pat, (j - 1) + 1) == occurs_at(t, pat, j - 1));
                    }
                }
            },
        }
    }
}

/// Conversely: the least index at which `pat` occurs is what `find` returns.
pub proof fn lemma_find_is(s: Seq<char>, pat: Seq<char>, i: int)
    requires
        occurs_at(s, pat, i),
        forall|j: int| 0 <= j < i ==> !occurs_at(s, pat, j),
    ensures
        find(s, pat) == Some(i),
{
    lemma_find(s, pat);
    match find(s, pat) {
        Some(k) => {
            if k < i {
                assert(!occurs_at(s, pat, k));
            } else if k > i {
                assert(!occurs_at(s, pat, i));
            }
        },
        None => {
            assert(!occurs_at(s, pat, i));
        },
    }
}

/// Where nothing occurs, `find` returns `None`.
pub proof fn lemma_find_none(s: Seq<char>, pat: Seq<char>)
    requires
        forall|j: int| !occurs_at(s, pat, j),
    ensures
        find(s, pat) is None,
{
    lemma_find(s, pat);
    if let Some(k) = find(s, pat) {
        assert(!occurs_at(s, pat, k));
    }
}

/// The parts of `parts` written one after the other with `sep` between
/// them.
pub open spec fn join(parts: Seq<Seq<char>>, sep: Seq<char>) -> Seq<char>
    decreases parts.len(),
{
    if parts.len() == 0 {
        Seq::empty()
    } else if parts.len() == 1 {
        parts[0]
    } else {
        join(parts.drop_last(), sep) + sep + parts.last()
    }
}

/// A line without the carriage return that may end it.
pub open spec fn without_cr(line: Seq<char>) -> Seq<char> {
    if line.len() > 0 && line.last() == '\r' {
        line.drop_last()
    } else {
        line
    }
}

/// The lines of `s`. A line ends at a line feed, or at a carriage return
/// directly followed by one; the ending is not part of the line. A last
/// line needs no ending, and an ending at the very end opens no further
/// line.
pub open spec fn lines(s: Seq<char>) -> Seq<Seq<char>>
    decreases s.len(),
{
    if s.len() == 0 {
        Seq::empty()
    } else {
        match find(s, seq!['\n']) {
            Some(i) => {
                if 0 <= i < s.len() {
                    seq![without_cr(s.take(i))] + lines(s.skip(i + 1))
                } else {
                    seq![s]
                }
            },
            None => seq![s],
        }
    }
}

/// The character of the decimal digit `d`.
pub open spec fn digit(d: int) -> char {
    if d == 0 {
        '0'
    } else if d == 1 {
        '1'
    } else if d == 2 {
        '2'
    } else if d == 3 {
        '3'
    } else if d == 4 {
        '4'
    } else if d == 5 {
        '5'
    } else if d == 6 {
        '6'
    } else if d == 7 {
        '7'
    } else if d == 8 {
        '8'
    } else {
        '9'
    }
}

/// `n` in decimal, without leading zeros.
pub open spec fn decimal(n: nat) -> Seq<char>
    decreases n,
{
    if n < 10 {
        seq![digit(n as int)]
    } else {
        decimal(n / 10).push(digit((n % 10) as int))
    }
}

/// `i` in decimal, with a minus sign in front where it is negative.
pub open spec fn signed_decimal(i: int) -> Seq<char> {
    if i < 0 {
        seq!['-'] + decimal((-i) as nat)
    } else {
        decimal(i as nat)
    }
}

/// The characters of `s`, in order.
pub fn chars_of(s: &str) -> (v: Vec<char>)
    ensures
        v@ == s@,
{
    let mut v: Vec<char> = Vec::new();
    for c in it: s.chars()
        invariant
            v@ == s@.take(it.index() as int),
            it.seq() == s@,
    {
        v.push(c);
    }
    v
}

/// The string made of `v[from..to]`.
pub(crate) fn string_of(v: &Vec<char>, from: usize, to: usize) -> (s: String)
    requires
        from <= to <= v.len(),
    ensures
        s@ == v@.subrange(from as int, to as int),
{
    let mut s = String::new();
    let mut i: usize = from;
    while i < to
        invariant
            from <= i <= to <= v.len(),
            s@ == v@.subrange(from as int, i as int),
        decreases to - i,
    {
        s.push(v[i]);
        i += 1;
    }
    s
}

/// Whether two texts hold the same characters.
pub fn same_text(a: &str, b: &str) -> (r: bool)
    ensures
        r == (a@ == b@),
{
    let x = chars_of(a);
    let y = chars_of(b);
    if x.len() != y.len() {
        return false;
    }
    let mut i: usize = 0;
    while i < x.len()
        invariant
            i <= x.len() == y.len(),
            x@ == a@,
            y@ == b@,
            x@.take(i as int) == y@.take(i as int),
        decreases x.len() - i,
    {
        if x[i] != y[i] {
            assert(a@[i as int] != b@[i as int]);
            return false;
        }
        assert(x@.take(i + 1) =~= x@.take(i as int).push(x@[i as int]));
        assert(y@.take(i + 1) =~= y@.take(i as int).push(y@[i as int]));
        i += 1;
    }
    assert(x@ =~= x@.take(i as int));
    assert(y@ =~= y@.take(i as int));
    true
}

/// `a` followed by `b`.
pub fn chain(a: &str, b: &str) -> (r: String)
    ensures
        r@ == a@ + b@,
{
    let mut r = String::from_str(a);
    r.append(b);
    r
}

/// `a`, `b` and `c` one after the other.
pub fn chain3(a: &str, b: &str, c: &str) -> (r: String)
    ensures
        r@ == a@ + b@ + c@,
{
    let mut r = String::from_str(a);
    r.append(b);
    r.append(c);
    r
}

/// Where `v[from..to]` begins once its leading characters of `class` are
/// dropped.
pub(crate) fn leading_end(v: &Vec<char>, from: usize, to: usize, class: CharClass) -> (r: usize)
    requires
        from <= to <= v.len(),
    ensures
        from <= r <= to,
        v@.subrange(r as int, to as int) == drop_leading(
            v@.subrange(from as int, to as int),
            class,
        ),
{
    let mut i: usize = from;
    while i < to && class.contains(v[i])
        invariant
            from <= i <= to <= v.len(),
            drop_leading(v@.subrange(from as int, to as int), class) == drop_leading(
                v@.subrange(i as int, to as int),
                class,
            ),
        decreases to - i,
    {
        assert(v@.subrange(i as int, to as int).drop_first() =~= v@.subrange(i + 1, to as int));
        i += 1;
    }
    i
}

/// Where `v[from..to]` ends once its trailing characters of `class` are
/// dropped.
pub(crate) fn trailing_start(v: &Vec<char>, from: usize, to: usize, class: CharClass) -> (r: usize)
    requires
        from <= to <= v.len(),
    ensures
        from <= r <= to,
        v@.subrange(from as int, r as int) == drop_trailing(
            v@.subrange(from as int, to as int),
            class,
        ),
{
    let mut j: usize = to;
    while j > from && class.contains(v[j - 1])
        invariant
            from <= j <= to <= v.len(),
            drop_trailing(v@.subrange(from as int, to as int), class) == drop_trailing(
                v@.subrange(from as int, j as int),
                class,
            ),
        decreases j,
    {
        assert(v@.subrange(from as int, j as int).drop_last() =~= v@.subrange(from as int, j - 1));
        j -= 1;
    }
    j
}

/// The bounds of what is left of `v[from..to]` once the characters of
/// `class` are removed from both ends.
pub(crate) fn strip_bounds(v: &Vec<char>, from: usize, to: usize, class: CharClass) -> (r: (
    usize,
    usize,
))
    requires
        from <= to <= v.len(),
    ensures
        from <= r.0 <= r.1 <= to,
        v@.subrange(r.0 as int, r.1 as int) == strip(v@.subrange(from as int, to as int), class),
{
    let i = leading_end(v, from, to, class);
    let j = trailing_start(v, i, to, class);
    (i, j)
}

/// Where the longest suffix of `v[from..to]` without a character of `class`
/// begins.
pub(crate) fn trailing_run_start(v: &Vec<char>, from: usize, to: usize, class: CharClass) -> (r: usize)
    requires
        from <= to <= v.len(),
    ensures
        from <= r <= to,
        v@.subrange(r as int, to as int) == trailing_run(
            v@.subrange(from as int, to as int),
            class,
        ),
{
    let mut j: usize = to;
    while j > from && !class.contains(v[j - 1])
        invariant
            from <= j <= to <= v.len(),
            trailing_run(v@.subrange(from as int, to as int), class) == trailing_run(
                v@.subrange(from as int, j as int),
                class,
            ) + v@.subrange(j as int, to as int),
        decreases j,
    {
        let ghost head = v@.subrange(from as int, j as int);
        assert(head.drop_last() =~= v@.subrange(from as int, j - 1));
        assert(trailing_run(head.drop_last(), class).push(head.last()) + v@.subrange(
            j as int,
            to as int,
        ) =~= trailing_run(head.drop_last(), class) + v@.subrange(j - 1, to as int));
        j -= 1;
    }
    assert(trailing_run(v@.subrange(from as int, j as int), class) =~= Seq::<char>::empty());
    assert(Seq::<char>::empty() + v@.subrange(j as int, to as int) =~= v@.subrange(
        j as int,
        to as int,
    ));
    j
}

/// The characters of `s` that are not of `class`, in order.
pub fn chars_without(s: &str, class: CharClass) -> (r: Vec<char>)
    ensures
        r@ == without(s@, class),
{
    let v = chars_of(s);
    let mut r: Vec<char> = Vec::new();
    let mut i: usize = 0;
    assert(v@.take(0) =~= Seq::<char>::empty());
    while i < v.len()
        invariant
            i <= v.len(),
            v@ == s@,
            r@ == without(v@.take(i as int), class),
        decreases v.len() - i,
    {
        assert(v@.take(i + 1).drop_last() =~= v@.take(i as int));
        if !class.contains(v[i]) {
            r.push(v[i]);
        }
        i += 1;
    }
    assert(v@.take(i as int) =~= v@);
    r
}

/// `s` with the characters of `class` removed from both ends.
pub fn strip_class(s: &str, class: CharClass) -> (r: String)
    ensures
        r@ == strip(s@, class),
{
    let v = chars_of(s);
    let (from, to) = strip_bounds(&v, 0, v.len(), class);
    assert(v@.subrange(0, v.len() as int) =~= v@);
    string_of(&v, from, to)
}

/// `s` without leading and trailing white space.
pub fn trim(s: &str) -> (r: String)
    ensures
        r@ == trimmed(s@),
{
    strip_class(s, CharClass::Whitespace)
}

/// `s` without leading and trailing double quotes.
pub fn strip_quotes(s: &str) -> (r: String)
    ensures
        r@ == unquoted(s@),
{
    strip_class(s, CharClass::Quote)
}

/// Whether `pat` stands in `v` at index `i`.
pub(crate) fn matches_at(v: &Vec<char>, pat: &Vec<char>, i: usize) -> (r: bool)
    ensures
        r == occurs_at(v@, pat@, i as int),
{
    if pat.len() > v.len() || i > v.len() - pat.len() {
        return false;
    }
    let mut k: usize = 0;
    while k < pat.len()
        invariant
            k <= pat.len(),
            i + pat.len() <= v.len(),
            v@.subrange(i as int, i + k) =~= pat@.take(k as int),
        decreases pat.len() - k,
    {
        if v[i + k] != pat[k] {
            assert(v@.subrange(i as int, i + pat.len())[k as int] != pat@[k as int]);
            return false;
        }
        k += 1;
    }
    assert(pat@.take(k as int) =~= pat@);
    true
}

/// An occurrence in `s` from `from` on is an occurrence in what is left of
/// `s` after `from` characters.
pub proof fn lemma_occurs_in_rest(s: Seq<char>, pat: Seq<char>, from: int, i: int)
    requires
        0 <= from <= i <= s.len(),
    ensures
        occurs_at(s, pat, i) == occurs_at(s.skip(from), pat, i - from),
{
    if i + pat.len() <= s.len() {
        assert(s.subrange(i, i + pat.len()) =~= s.skip(from).subrange(
            i - from,
            i - from + pat.len(),
        ));
    }
}

/// The first index from `from` on at which `pat` stands in `v`.
pub(crate) fn find_from(v: &Vec<char>, pat: &Vec<char>, from: usize) -> (r: Option<usize>)
    requires
        from <= v.len(),
    ensures
        match r {
            Some(k) => from <= k && k + pat.len() <= v.len() && find(v@.skip(from as int), pat@)
                == Some(k - from),
            None => find(v@.skip(from as int), pat@) is None,
        },
{
    let ghost rest = v@.skip(from as int);
    let mut i: usize = from;
    while i < v.len()
        invariant
            from <= i <= v.len(),
            rest == v@.skip(from as int),
            forall|j: int| 0 <= j < i - from ==> !occurs_at(rest, pat@, j),
        decreases v.len() - i,
    {
        proof {
            lemma_occurs_in_rest(v@, pat@, from as int, i as int);
        }
        if matches_at(v, pat, i) {
            proof {
                lemma_find_is(rest, pat@, i - from);
            }
            return Some(i);
        }
        i += 1;
    }
    proof {
        lemma_occurs_in_rest(v@, pat@, from as int, i as int);
    }
    if matches_at(v, pat, i) {
        proof {
            lemma_find_is(rest, pat@, i - from);
        }
        return Some(i);
    }
    proof {
        lemma_find_none(rest, pat@);
    }
    None
}

/// Appends `line` to `v`.
pub fn push_text(v: &mut Vec<String>, line: String)
    ensures
        final(v).deep_view() == old(v).deep_view().push(line@),
{
    v.push(line);
    assert(v.deep_view() =~= old(v).deep_view().push(line@));
}

/// Appends the strings of `more` to `v`, in order.
pub fn extend_texts(v: &mut Vec<String>, more: &Vec<String>)
    ensures
        final(v).deep_view() == old(v).deep_view() + more.deep_view(),
{
    let mut i: usize = 0;
    while i < more.len()
        invariant
            i <= more.len(),
            v.deep_view() == old(v).deep_view() + more.deep_view().take(i as int),
        decreases more.len() - i,
    {
        push_text(v, more[i].clone());
        assert(more.deep_view().take(i + 1) =~= more.deep_view().take(i as int).push(
            more[i as int]@,
        ));
        i += 1;
    }
    assert(more.deep_view().take(i as int) =~= more.deep_view());
}

/// The lines of `s`.
pub fn split_lines(s: &str) -> (out: Vec<String>)
    ensures
        out.deep_view() == lines(s@),
{
    let v = chars_of(s);
    let ghost nl = seq!['\n'];
    let mut out: Vec<String> = Vec::new();
    let mut start: usize = 0;
    let mut i: usize = 0;
    assert(v@.skip(0) =~= v@);
    assert(out.deep_view() =~= Seq::<Seq<char>>::empty());
    while i < v.len()
        invariant
            start <= i <= v.len(),
            nl == seq!['\n'],
            lines(v@) == out.deep_view() + lines(v@.skip(start as int)),
            forall|k: int| start <= k < i ==> v@[k] != '\n',
        decreases v.len() - i,
    {
        if v[i] == '\n' {
            let ghost rest = v@.skip(start as int);
            proof {
                assert(rest.subrange(i - start, i - start + 1) =~= nl);
                assert forall|j: int| 0 <= j < i - start implies !occurs_at(rest, nl, j) by {
                    if occurs_at(rest, nl, j) {
                        assert(rest.subrange(j, j + 1)[0] == nl[0]);
                    }
                }
                lemma_find_is(rest, nl, i - start);
                assert(rest.take(i - start) =~= v@.subrange(start as int, i as int));
                assert(rest.skip(i - start + 1) =~= v@.skip(i + 1));
            }
            let end = if i > start && v[i - 1] == '\r' {
                i - 1
            } else {
                i
            };
            let line = string_of(&v, start, end);
            assert(line@ =~= without_cr(v@.subrange(start as int, i as int)));
            let ghost before = out.deep_view();
            push_text(&mut out, line);
            assert(before.push(line@) + lines(v@.skip(i + 1)) =~= before + (seq![line@] + lines(
                v@.skip(i + 1),
            )));
            start = i + 1;
        }
        i += 1;
    }
    if start < v.len() {
        let ghost rest = v@.skip(start as int);
        proof {
            assert forall|j: int| !occurs_at(rest, nl, j) by {
                if occurs_at(rest, nl, j) {
                    assert(rest.subrange(j, j + 1)[0] == nl[0]);
                }
            }
            lemma_find_none(rest, nl);
            assert(rest =~= v@.subrange(start as int, v.len() as int));
        }
        let line = string_of(&v, start, v.len());
        let ghost before = out.deep_view();
        push_text(&mut out, line);
        assert(before.push(line@) =~= before + seq![line@]);
    } else {
        assert(out.deep_view() + Seq::<Seq<char>>::empty() =~= out.deep_view());
    }
    out
}

/// The character of the decimal digit `d`.
pub(crate) fn digit_char(d: u64) -> (c: char)
    requires
        d < 10,
    ensures
        c == digit(d as int),
{
    if d == 0 {
        '0'
    } else if d == 1 {
        '1'
    } else if d == 2 {
        '2'
    } else if d == 3 {
        '3'
    } else if d == 4 {
        '4'
    } else if d == 5 {
        '5'
    } else if d == 6 {
        '6'
    } else if d == 7 {
        '7'
    } else if d == 8 {
        '8'
    } else {
        '9'
    }
}

/// Appends `n` in decimal to `s`.
pub fn push_decimal(s: &mut String, n: u64)
    ensures
        final(s)@ == old(s)@ + decimal(n as nat),
    decreases n,
{
    if n >= 10 {
        push_decimal(s, n / 10);
    }
    let ghost mid = s@;
    s.push(digit_char(n % 10));
    assert(s@ =~= old(s)@ + decimal(n as nat));
}

/// `n` in decimal.
pub fn decimal_of(n: usize) -> (s: String)
    ensures
        s@ == decimal(n as nat),
{
    let mut s = String::new();
    push_decimal(&mut s, n as u64);
    assert(s@ =~= decimal(n as nat));
    s
}

/// `i` in decimal, with its sign where it is negative.
pub fn signed_decimal_of(i: i32) -> (s: String)
    ensures
        s@ == signed_decimal(i as int),
{
    let mut s = String::new();
    if i < 0 {
        s.push('-');
        let wide: i64 = i as i64;
        let magnitude: i64 = -wide;
        push_decimal(&mut s, magnitude as u64);
    } else {
        push_decimal(&mut s, i as u64);
    }
    assert(s@ =~= signed_decimal(i as int));
    s
}

/// The strings of `parts` one after the other with `sep` between them.
pub fn join_texts(parts: &Vec<String>, sep: &str) -> (r: String)
    ensures
        r@ == join(parts.deep_view(), sep@),
{
    let mut r = String::new();
    let mut i: usize = 0;
    while i < parts.len()
        invariant
            i <= parts.len(),
            r@ == join(parts.deep_view().take(i as int), sep@),
        decreases parts.len() - i,
    {
        let ghost before = parts.deep_view().take(i as int);
        let ghost now = parts.deep_view().take(i + 1);
        assert(now.drop_last() =~= before);
        assert(now.last() == parts[i as int]@);
        if i > 0 {
            r.append(sep);
        } else {
            assert(r@ + parts[i as int]@ =~= parts[i as int]@);
        }
        r.append(parts[i].as_str());
        i += 1;
    }
    assert(parts.deep_view().take(i as int) =~= parts.deep_view());
    r
}

/// Whether `s` starts with `prefix`.
pub fn starts_with(s: &str, prefix: &str) -> (r: bool)
    ensures
        r == occurs_at(s@, prefix@, 0),
{
    let v = chars_of(s);
    let p = chars_of(prefix);
    matches_at(&v, &p, 0)
}

/// Whether `c` occurs in `s`.
pub fn contains_char(s: &str, c: char) -> (r: bool)
    ensures
        r == s@.contains(c),
{
    let v = chars_of(s);
    let mut i: usize = 0;
    while i < v.len()
        invariant
            i <= v.len(),
            v@ == s@,
            forall|k: int| 0 <= k < i ==> v@[k] != c,
        decreases v.len() - i,
    {
        if v[i] == c {
            return true;
        }
        i += 1;
    }
    false
}

} // verus!
