//! Splitting the comma-separated broker field into addresses.
use vstd::prelude::*;
use vstd::string::*;

verus! {

/// The characters that have the Unicode `White_Space` property.
pub open spec fn is_white_space(c: char) -> bool {
    let u = c as u32;
    (0x09 <= u && u <= 0x0d) || u == 0x20 || u == 0x85 || u == 0xa0 || u == 0x1680 || (0x2000
        <= u && u <= 0x200a) || u == 0x2028 || u == 0x2029 || u == 0x202f || u == 0x205f || u
        == 0x3000
}

/// `s` without its leading white space.
pub open spec fn trim_start(s: Seq<char>) -> Seq<char>
    decreases s.len(),
{
    if s.len() > 0 && is_white_space(s[0]) {
        trim_start(s.skip(1))
    } else {
        s
    }
}

/// `s` without its trailing white space.
pub open spec fn trim_end(s: Seq<char>) -> Seq<char>
    decreases s.len(),
{
    if s.len() > 0 && is_white_space(s.last()) {
        trim_end(s.drop_last())
    } else {
        s
    }
}

/// `s` without white space at either end.
pub open spec fn trim(s: Seq<char>) -> Seq<char> {
    trim_end(trim_start(s))
}

/// Index of the first comma in `s`, or its length if it holds none.
pub open spec fn first_comma(s: Seq<char>) -> nat
    decreases s.len(),
{
    if s.len() == 0 {
        0
    } else if s[0] == ',' {
        0
    } else {
        1 + first_comma(s.skip(1))
    }
}

/// The broker addresses that a broker field names: its comma-separated
/// segments, trimmed, without the empty ones, in order.
pub open spec fn broker_list(s: Seq<char>) -> Seq<Seq<char>>
    decreases s.len(),
{
    let j = first_comma(s);
    let t = trim(s.take(j as int));
    let head = if t.len() > 0 {
        seq![t]
    } else {
        Seq::empty()
    };
    if j >= s.len() {
        head
    } else {
        head + broker_list(s.skip((j + 1) as int))
    }
}

/// Every character of `s` is a comma or white space.
pub open spec fn only_separators(s: Seq<char>) -> bool {
    forall|i: int| 0 <= i < s.len() ==> s[i] == ',' || is_white_space(#[trigger] s[i])
}

proof fn lemma_first_comma_bound(s: Seq<char>)
    ensures
        first_comma(s) <= s.len(),
        first_comma(s) < s.len() ==> s[first_comma(s) as int] == ',',
    decreases s.len(),
{
    if s.len() > 0 && s[0] != ',' {
        lemma_first_comma_bound(s.skip(1));
    }
}

proof fn lemma_first_comma_at(s: Seq<char>, j: int)
    requires
        0 <= j <= s.len(),
        forall|k: int| 0 <= k < j ==> s[k] != ',',
        j == s.len() || s[j] == ',',
    ensures
        first_comma(s) == j,
    decreases s.len(),
{
    if s.len() > 0 && s[0] != ',' {
        assert forall|k: int| 0 <= k < j - 1 implies s.skip(1)[k] != ',' by {
            assert(s.skip(1)[k] == s[k + 1]);
        }
        lemma_first_comma_at(s.skip(1), j - 1);
    }
}

proof fn lemma_trim_start_at(s: Seq<char>, a: int)
    requires
        0 <= a <= s.len(),
        forall|k: int| 0 <= k < a ==> is_white_space(#[trigger] s[k]),
        a == s.len() || !is_white_space(s[a]),
    ensures
        trim_start(s) == s.skip(a),
    decreases s.len(),
{
    if a > 0 {
        assert(is_white_space(s[0]));
        assert forall|k: int| 0 <= k < a - 1 implies is_white_space(#[trigger] s.skip(1)[k]) by {
            assert(s.skip(1)[k] == s[k + 1]);
        }
        lemma_trim_start_at(s.skip(1), a - 1);
        assert(s.skip(1).skip(a - 1) =~= s.skip(a));
    } else {
        assert(s.skip(0) =~= s);
    }
}

proof fn lemma_trim_end_at(s: Seq<char>, b: int)
    requires
        0 <= b <= s.len(),
        forall|k: int| b <= k < s.len() ==> is_white_space(#[trigger] s[k]),
        b == 0 || !is_white_space(s[b - 1]),
    ensures
        trim_end(s) == s.take(b),
    decreases s.len(),
{
    if b < s.len() {
        assert(is_white_space(s.last()));
        assert forall|k: int| b <= k < s.drop_last().len() implies is_white_space(
            #[trigger] s.drop_last()[k],
        ) by {
            assert(s.drop_last()[k] == s[k]);
        }
        lemma_trim_end_at(s.drop_last(), b);
        assert(s.drop_last().take(b) =~= s.take(b));
    } else {
        assert(s.take(b) =~= s);
    }
}

/// Relies on `char::is_whitespace`: true exactly of the characters with the
/// Unicode `White_Space` property.
#[verifier::external_body]
fn is_blank(c: char) -> (r: bool)
    ensures
        r == is_white_space(c),
{
    c.is_whitespace()
}

/// The views of a list of strings.
pub open spec fn views(v: Seq<String>) -> Seq<Seq<char>> {
    v.map_values(|x: String| x@)
}

/// The trimmed text of `s[from..to]`.
fn trimmed_segment(s: &str, from: usize, to: usize) -> (r: String)
    requires
        from <= to <= s@.len(),
    ensures
        r@ == trim(s@.subrange(from as int, to as int)),
{
    let ghost seg = s@.subrange(from as int, to as int);
    let mut a: usize = from;
    while a < to && is_blank(s.get_char(a))
        invariant
            from <= a <= to <= s@.len(),
            seg == s@.subrange(from as int, to as int),
            forall|k: int| from <= k < a ==> is_white_space(#[trigger] s@[k]),
        decreases to - a,
    {
        a = a + 1;
    }
    proof {
        assert forall|k: int| 0 <= k < a - from implies is_white_space(#[trigger] seg[k]) by {
            assert(seg[k] == s@[k + from]);
        }
        lemma_trim_start_at(seg, a - from);
    }
    let ghost rest = seg.skip(a - from);
    let mut b: usize = to;
    while b > a && is_blank(s.get_char(b - 1))
        invariant
            from <= a <= b <= to <= s@.len(),
            rest == s@.subrange(a as int, to as int),
            forall|k: int| b <= k < to ==> is_white_space(#[trigger] s@[k]),
        decreases b - a,
    {
        b = b - 1;
    }
    proof {
        assert(rest =~= s@.subrange(a as int, to as int));
        assert forall|k: int| b - a <= k < rest.len() implies is_white_space(#[trigger] rest[k]) by {
            assert(rest[k] == s@[k + a]);
        }
        lemma_trim_end_at(rest, b - a);
        assert(rest.take(b - a) =~= s@.subrange(a as int, b as int));
    }
    String::from_str(s.substring_char(a, b))
}

/// The broker addresses named by `s`: split on commas, each entry trimmed of
/// white space, empty entries dropped, order kept.
pub fn parse_brokers(s: &str) -> (r: Vec<String>)
    ensures
        views(r@) == broker_list(s@),
{
    let n = s.unicode_len();
    let mut out: Vec<String> = Vec::new();
    let mut start: usize = 0;
    let mut done = false;
    proof {
        assert(s@.skip(0) =~= s@);
        assert(views(out@) + broker_list(s@) =~= broker_list(s@));
    }
    while !done
        invariant
            n == s@.len(),
            start <= n,
            done ==> views(out@) == broker_list(s@),
            !done ==> views(out@) + broker_list(s@.skip(start as int)) == broker_list(s@),
        decreases n - start + (if done { 0int } else { 1int }),
    {
        let ghost t = s@.skip(start as int);
        let mut j: usize = start;
        while j < n && s.get_char(j) != ','
            invariant
                start <= j <= n,
                n == s@.len(),
                forall|k: int| start <= k < j ==> s@[k] != ',',
            decreases n - j,
        {
            j = j + 1;
        }
        proof {
            assert forall|k: int| 0 <= k < j - start implies t[k] != ',' by {
                assert(t[k] == s@[k + start]);
            }
            lemma_first_comma_at(t, j - start);
            assert(t.take(j - start) =~= s@.subrange(start as int, j as int));
        }
        let seg = trimmed_segment(s, start, j);
        let ghost before = views(out@);
        let ghost head = if seg@.len() > 0 {
            seq![seg@]
        } else {
            Seq::<Seq<char>>::empty()
        };
        if seg.unicode_len() > 0 {
            out.push(seg);
            proof {
                assert(views(out@) =~= before + head);
            }
        } else {
            proof {
                assert(views(out@) =~= before + head);
            }
        }
        if j >= n {
            done = true;
            proof {
                assert(broker_list(t) == head);
            }
        } else {
            proof {
                assert(t.skip(j - start + 1) =~= s@.skip(j + 1));
                assert(broker_list(t) == head + broker_list(s@.skip(j + 1)));
                assert(before + head + broker_list(s@.skip(j + 1)) =~= before + (head
                    + broker_list(s@.skip(j + 1))));
            }
            start = j + 1;
        }
    }
    out
}

/// A broker field of commas and white space alone names no broker.
pub proof fn lemma_separators_name_no_broker(s: Seq<char>)
    requires
        only_separators(s),
    ensures
        broker_list(s).len() == 0,
    decreases s.len(),
{
    let j = first_comma(s);
    lemma_first_comma_bound(s);
    let seg = s.take(j as int);
    assert forall|k: int| 0 <= k < seg.len() implies is_white_space(#[trigger] seg[k]) by {
        assert(seg[k] == s[k]);
        lemma_first_comma_at_no_comma_before(s, k);
    }
    lemma_trim_start_at(seg, seg.len() as int);
    assert(seg.skip(seg.len() as int).len() == 0);
    assert(trim_end(Seq::<char>::empty()) =~= Seq::<char>::empty());
    if j < s.len() {
        let rest = s.skip((j + 1) as int);
        assert forall|i: int| 0 <= i < rest.len() implies rest[i] == ',' || is_white_space(
            #[trigger] rest[i],
        ) by {
            assert(rest[i] == s[i + j + 1]);
        }
        lemma_separators_name_no_broker(rest);
    }
}

proof fn lemma_first_comma_at_no_comma_before(s: Seq<char>, k: int)
    requires
        0 <= k < first_comma(s),
    ensures
        s[k] != ',',
    decreases s.len(),
{
    lemma_first_comma_bound(s);
    if k > 0 {
        lemma_first_comma_at_no_comma_before(s.skip(1), k - 1);
    }
}

} // verus!
