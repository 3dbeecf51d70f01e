//! Version numbers of the form `[v]MAJOR.MINOR.PATCH[-PRE]`, their order,
//! and the `>=FLOOR` requirement the staged browser plugin declares for the
//! backend it was tested against.
use vstd::prelude::*;

use crate::text::{
    decimal_spec, is_digit, is_ws, lemma_decimal, lemma_digit_is_plain, lemma_first_index,
    lemma_parse_decimal, lemma_split_acc_plain, lemma_split_acc_joined, lemma_split_acc_sep, lemma_split_nonempty, split_acc, lemma_trim_plain_ends,
    trim_end_spec, lossy_text, parse_u64, parse_u64_spec, split_char, split_once, split_once_spec, split_spec,
    strip_prefix, strip_prefix_spec, tokens_spec, trim, trim_char_start, trim_spec,
    trim_start_char, utf8_lossy, whitespace_tokens,
};

verus! {

/// A parsed version: three numbers and an optional pre-release tag.
pub type SemVer = (u64, u64, u64, Option<String>);

/// The mathematical form of a [`SemVer`].
pub type SemVerSpec = (u64, u64, u64, Option<Seq<char>>);

/// Result of comparing two values.
#[derive(Clone, Copy, Debug, PartialEq, Eq, Structural)]
pub enum Order {
    Less,
    Equal,
    Greater,
}

pub open spec fn reverse(o: Order) -> Order {
    match o {
        Order::Less => Order::Greater,
        Order::Equal => Order::Equal,
        Order::Greater => Order::Less,
    }
}

/// Order of two numbers.
pub open spec fn num_order(m: u64, n: u64) -> Order {
    if m < n {
        Order::Less
    } else if m == n {
        Order::Equal
    } else {
        Order::Greater
    }
}

/// Lexicographic order of two strings by character (the order of their
/// UTF-8 bytes, which is how `str` compares).
pub open spec fn lex_order(a: Seq<char>, b: Seq<char>) -> Order
    decreases a.len(),
{
    if a.len() == 0 && b.len() == 0 {
        Order::Equal
    } else if a.len() == 0 {
        Order::Less
    } else if b.len() == 0 {
        Order::Greater
    } else if a[0] < b[0] {
        Order::Less
    } else if a[0] > b[0] {
        Order::Greater
    } else {
        lex_order(a.drop_first(), b.drop_first())
    }
}

/// Order of two pre-release identifiers: numeric ones by value and before
/// any other, the rest lexicographically.
pub open spec fn ident_order(a: Seq<char>, b: Seq<char>) -> Order {
    match (parse_u64_spec(a), parse_u64_spec(b)) {
        (Some(m), Some(n)) => num_order(m, n),
        (Some(_), None) => Order::Less,
        (None, Some(_)) => Order::Greater,
        (None, None) => lex_order(a, b),
    }
}

/// Identifier by identifier; a list that runs out first is the smaller.
pub open spec fn pieces_order(xs: Seq<Seq<char>>, ys: Seq<Seq<char>>) -> Order
    decreases xs.len(),
{
    if xs.len() == 0 && ys.len() == 0 {
        Order::Equal
    } else if xs.len() == 0 {
        Order::Less
    } else if ys.len() == 0 {
        Order::Greater
    } else {
        match ident_order(xs[0], ys[0]) {
            Order::Equal => pieces_order(xs.drop_first(), ys.drop_first()),
            o => o,
        }
    }
}

/// Order of two pre-release tags, compared by their dot-separated parts.
pub open spec fn prerelease_order_spec(x: Seq<char>, y: Seq<char>) -> Order {
    pieces_order(split_spec(x, '.'), split_spec(y, '.'))
}

/// Order of two versions: by major, minor, patch; on a tie a release
/// outranks any pre-release, and two pre-releases compare by their tags.
pub open spec fn semver_order_spec(a: SemVerSpec, b: SemVerSpec) -> Order {
    let o = if a.0 != b.0 {
        num_order(a.0, b.0)
    } else if a.1 != b.1 {
        num_order(a.1, b.1)
    } else {
        num_order(a.2, b.2)
    };
    if o != Order::Equal {
        o
    } else {
        match (a.3, b.3) {
            (None, None) => Order::Equal,
            (None, Some(_)) => Order::Greater,
            (Some(_), None) => Order::Less,
            (Some(x), Some(y)) => prerelease_order_spec(x, y),
        }
    }
}

/// `t` without one leading `v`.
pub open spec fn strip_v(t: Seq<char>) -> Seq<char> {
    if t.len() > 0 && t[0] == 'v' {
        t.drop_first()
    } else {
        t
    }
}

/// Three dot-separated numbers, each as `str::parse::<u64>` reads it.
pub open spec fn parse_triple(nums: Seq<char>) -> Option<(u64, u64, u64)> {
    let parts = split_spec(nums, '.');
    if parts.len() == 3 && parse_u64_spec(parts[0]) is Some && parse_u64_spec(parts[1]) is Some
        && parse_u64_spec(parts[2]) is Some {
        Some(
            (
                parse_u64_spec(parts[0])->0,
                parse_u64_spec(parts[1])->0,
                parse_u64_spec(parts[2])->0,
            ),
        )
    } else {
        None
    }
}

/// The version `s` denotes: surrounding whitespace and one leading `v`
/// ignored, everything after the first `-` taken as the pre-release tag.
pub open spec fn parse_semver_spec(s: Seq<char>) -> Option<SemVerSpec> {
    let body = strip_v(trim_spec(s));
    let (nums, pre) = match split_once_spec(body, '-') {
        Some((n, p)) => (n, Some(p)),
        None => (body, None),
    };
    match parse_triple(nums) {
        Some((a, b, c)) => Some((a, b, c, pre)),
        None => None,
    }
}

/// Verdict of a `>=FLOOR` requirement against a version: `None` when the
/// requirement has another form or either side does not parse.
pub open spec fn requirement_satisfied_spec(requirement: Seq<char>, version: Seq<char>) -> Option<
    bool,
> {
    match strip_prefix_spec(trim_spec(requirement), ">="@) {
        None => None,
        Some(floor) => match (parse_semver_spec(floor), parse_semver_spec(version)) {
            (Some(want), Some(have)) => Some(semver_order_spec(have, want) != Order::Less),
            _ => None,
        },
    }
}

/// The version a backend prints for `--version`: its first
/// whitespace-separated word with any leading `v`s dropped, when that word
/// reads as a version.
pub open spec fn version_token_spec(out: Seq<char>) -> Option<Seq<char>> {
    let toks = tokens_spec(out);
    if toks.len() == 0 {
        None
    } else {
        let token = trim_char_start(trim_spec(toks[0]), 'v');
        if parse_semver_spec(token) is Some {
            Some(token)
        } else {
            None
        }
    }
}

pub open spec fn semver_view(v: SemVer) -> SemVerSpec {
    v.deep_view()
}

// ---------------------------------------------------------------------------
// The order is a total preorder
// ---------------------------------------------------------------------------

pub open spec fn le(o: Order) -> bool {
    o != Order::Greater
}

proof fn lemma_num_order(m: u64, n: u64, p: u64)
    ensures
        num_order(m, n) == reverse(num_order(n, m)),
        le(num_order(m, n)) && le(num_order(n, p)) ==> le(num_order(m, p)),
        num_order(m, n) == Order::Less && le(num_order(n, p)) ==> num_order(m, p) == Order::Less,
        le(num_order(m, n)) && num_order(n, p) == Order::Less ==> num_order(m, p) == Order::Less,
        num_order(m, n) == Order::Equal <==> m == n,
{
}

proof fn lemma_lex_reverse(a: Seq<char>, b: Seq<char>)
    ensures
        lex_order(a, b) == reverse(lex_order(b, a)),
        lex_order(a, b) == Order::Equal <==> a == b,
    decreases a.len(),
{
    if a.len() > 0 && b.len() > 0 && a[0] == b[0] {
        lemma_lex_reverse(a.drop_first(), b.drop_first());
        if a.drop_first() == b.drop_first() {
            assert(a =~= seq![a[0]] + a.drop_first());
            assert(b =~= seq![b[0]] + b.drop_first());
        }
    }
    if a.len() == 0 && b.len() == 0 {
        assert(a =~= b);
    }
}

/// Text orders as `str::cmp` does: a proper prefix sorts first (so `beta`
/// comes before `beta2`), and a string never sorts before its extensions.
pub proof fn lemma_lex_prefix_first(a: Seq<char>, t: Seq<char>)
    requires
        t.len() > 0,
    ensures
        lex_order(a, a + t) == Order::Less,
        lex_order(a + t, a) == Order::Greater,
    decreases a.len(),
{
    if a.len() > 0 {
        assert((a + t).drop_first() =~= a.drop_first() + t);
        assert((a + t)[0] == a[0]);
        lemma_lex_prefix_first(a.drop_first(), t);
    } else {
        assert(a + t =~= t);
    }
}

/// Text orders by its first differing character.
pub proof fn lemma_lex_first_difference(p: Seq<char>, x: char, y: char, a: Seq<char>, b: Seq<char>)
    requires
        x < y,
    ensures
        lex_order(p.push(x) + a, p.push(y) + b) == Order::Less,
        lex_order(p.push(y) + b, p.push(x) + a) == Order::Greater,
    decreases p.len(),
{
    if p.len() > 0 {
        assert((p.push(x) + a).drop_first() =~= p.drop_first().push(x) + a);
        assert((p.push(y) + b).drop_first() =~= p.drop_first().push(y) + b);
        assert((p.push(x) + a)[0] == p[0]);
        assert((p.push(y) + b)[0] == p[0]);
        lemma_lex_first_difference(p.drop_first(), x, y, a, b);
    } else {
        assert((p.push(x) + a)[0] == x);
        assert((p.push(y) + b)[0] == y);
    }
}

/// Two identifiers that are not numbers compare as text, so a proper prefix
/// is the smaller identifier.
pub proof fn lemma_ident_prefix_first(a: Seq<char>, t: Seq<char>)
    requires
        t.len() > 0,
        parse_u64_spec(a) is None,
        parse_u64_spec(a + t) is None,
    ensures
        ident_order(a, a + t) == Order::Less,
        ident_order(a + t, a) == Order::Greater,
{
    lemma_lex_prefix_first(a, t);
}

/// Versions order by their numbers first: a larger major wins whatever the
/// rest says, then the minor, then the patch; with equal numbers a release
/// outranks every pre-release of it.
pub proof fn lemma_semver_numbers_first(a: SemVerSpec, b: SemVerSpec)
    ensures
        a.0 < b.0 ==> semver_order_spec(a, b) == Order::Less,
        a.0 == b.0 && a.1 < b.1 ==> semver_order_spec(a, b) == Order::Less,
        a.0 == b.0 && a.1 == b.1 && a.2 < b.2 ==> semver_order_spec(a, b) == Order::Less,
        a.0 == b.0 && a.1 == b.1 && a.2 == b.2 && a.3 is None && b.3 is Some ==> semver_order_spec(
            a,
            b,
        ) == Order::Greater,
{
}

/// A pre-release tag with fewer dot-separated parts sorts first when the
/// parts it has are the same: `rc` before `rc.1`.
pub proof fn lemma_prerelease_shorter_first(x: Seq<char>, y: Seq<char>)
    ensures
        prerelease_order_spec(x, x + "."@ + y) == Order::Less,
{
    reveal_strlit(".");
    assert(x + "."@ + y =~= x + seq!['.'] + y);
    lemma_split_acc_joined(x, y, '.', Seq::empty());
    lemma_split_nonempty(y, '.', Seq::empty());
    lemma_pieces_prefix(split_spec(x, '.'), split_spec(y, '.'));
}

proof fn lemma_pieces_prefix(xs: Seq<Seq<char>>, ys: Seq<Seq<char>>)
    requires
        ys.len() > 0,
    ensures
        pieces_order(xs, xs + ys) == Order::Less,
    decreases xs.len(),
{
    if xs.len() == 0 {
        assert(xs + ys =~= ys);
    } else {
        assert((xs + ys)[0] == xs[0]);
        assert((xs + ys).drop_first() =~= xs.drop_first() + ys);
        lemma_lex_reverse(xs[0], xs[0]);
        lemma_ident_self(xs[0]);
        lemma_pieces_prefix(xs.drop_first(), ys);
    }
}

proof fn lemma_ident_self(a: Seq<char>)
    ensures
        ident_order(a, a) == Order::Equal,
{
    lemma_lex_reverse(a, a);
}

proof fn lemma_lex_trans(a: Seq<char>, b: Seq<char>, c: Seq<char>)
    ensures
        le(lex_order(a, b)) && le(lex_order(b, c)) ==> le(lex_order(a, c)),
        lex_order(a, b) == Order::Less && le(lex_order(b, c)) ==> lex_order(a, c) == Order::Less,
        le(lex_order(a, b)) && lex_order(b, c) == Order::Less ==> lex_order(a, c) == Order::Less,
    decreases a.len(),
{
    if a.len() > 0 && b.len() > 0 && c.len() > 0 {
        lemma_lex_trans(a.drop_first(), b.drop_first(), c.drop_first());
    }
}

proof fn lemma_ident(a: Seq<char>, b: Seq<char>, c: Seq<char>)
    ensures
        ident_order(a, b) == reverse(ident_order(b, a)),
        ident_order(a, a) == Order::Equal,
        le(ident_order(a, b)) && le(ident_order(b, c)) ==> le(ident_order(a, c)),
        ident_order(a, b) == Order::Less && le(ident_order(b, c)) ==> ident_order(a, c)
            == Order::Less,
        le(ident_order(a, b)) && ident_order(b, c) == Order::Less ==> ident_order(a, c)
            == Order::Less,
{
    lemma_lex_reverse(a, b);
    lemma_lex_reverse(a, a);
    lemma_lex_trans(a, b, c);
    match (parse_u64_spec(a), parse_u64_spec(b), parse_u64_spec(c)) {
        (Some(m), Some(n), Some(p)) => {
            lemma_num_order(m, n, p);
            lemma_num_order(m, m, m);
        },
        (Some(m), _, _) => {
            lemma_num_order(m, m, m);
        },
        _ => {},
    }
}

proof fn lemma_pieces(xs: Seq<Seq<char>>, ys: Seq<Seq<char>>, zs: Seq<Seq<char>>)
    ensures
        pieces_order(xs, ys) == reverse(pieces_order(ys, xs)),
        pieces_order(xs, xs) == Order::Equal,
        le(pieces_order(xs, ys)) && le(pieces_order(ys, zs)) ==> le(pieces_order(xs, zs)),
        pieces_order(xs, ys) == Order::Less && le(pieces_order(ys, zs)) ==> pieces_order(xs, zs)
            == Order::Less,
        le(pieces_order(xs, ys)) && pieces_order(ys, zs) == Order::Less ==> pieces_order(xs, zs)
            == Order::Less,
    decreases xs.len(),
{
    if xs.len() > 0 && ys.len() > 0 && zs.len() > 0 {
        lemma_ident(xs[0], ys[0], zs[0]);
        lemma_ident(xs[0], zs[0], ys[0]);
        lemma_ident(ys[0], xs[0], zs[0]);
        lemma_pieces(xs.drop_first(), ys.drop_first(), zs.drop_first());
    } else if xs.len() > 0 && ys.len() > 0 {
        lemma_ident(xs[0], ys[0], ys[0]);
        lemma_pieces(xs.drop_first(), ys.drop_first(), ys.drop_first());
    } else if xs.len() > 0 {
        lemma_ident(xs[0], xs[0], xs[0]);
        lemma_pieces(xs.drop_first(), xs.drop_first(), xs.drop_first());
    }
}

/// The version order is antisymmetric: swapping the operands reverses the
/// verdict.
pub proof fn lemma_semver_order_antisymmetric(a: SemVerSpec, b: SemVerSpec)
    ensures
        semver_order_spec(a, b) == reverse(semver_order_spec(b, a)),
{
    lemma_num_order(a.0, b.0, b.0);
    lemma_num_order(a.1, b.1, b.1);
    lemma_num_order(a.2, b.2, b.2);
    if let (Some(x), Some(y)) = (a.3, b.3) {
        lemma_pieces(split_spec(x, '.'), split_spec(y, '.'), split_spec(y, '.'));
    }
}

/// Every version is equal to itself.
pub proof fn lemma_semver_order_reflexive(a: SemVerSpec)
    ensures
        semver_order_spec(a, a) == Order::Equal,
{
    if let Some(x) = a.3 {
        lemma_pieces(split_spec(x, '.'), split_spec(x, '.'), split_spec(x, '.'));
    }
}

/// The version order is transitive, for "at most" and for "below".
pub proof fn lemma_semver_order_transitive(a: SemVerSpec, b: SemVerSpec, c: SemVerSpec)
    ensures
        le(semver_order_spec(a, b)) && le(semver_order_spec(b, c)) ==> le(
            semver_order_spec(a, c),
        ),
        semver_order_spec(a, b) == Order::Less && le(semver_order_spec(b, c)) ==> semver_order_spec(
            a,
            c,
        ) == Order::Less,
        le(semver_order_spec(a, b)) && semver_order_spec(b, c) == Order::Less ==> semver_order_spec(
            a,
            c,
        ) == Order::Less,
{
    lemma_num_order(a.0, b.0, c.0);
    lemma_num_order(a.1, b.1, c.1);
    lemma_num_order(a.2, b.2, c.2);
    if let (Some(x), Some(y), Some(z)) = (a.3, b.3, c.3) {
        lemma_pieces(split_spec(x, '.'), split_spec(y, '.'), split_spec(z, '.'));
    }
}

/// A requirement is met by its own floor version.
pub proof fn lemma_requirement_accepts_floor(requirement: Seq<char>, floor: Seq<char>)
    requires
        strip_prefix_spec(trim_spec(requirement), ">="@) == Some(floor),
        parse_semver_spec(floor) is Some,
    ensures
        requirement_satisfied_spec(requirement, floor) == Some(true),
{
    lemma_semver_order_reflexive(parse_semver_spec(floor)->0);
}

/// A requirement met by one version is met by every version at or above
/// it.
pub proof fn lemma_requirement_monotone(requirement: Seq<char>, v: Seq<char>, w: Seq<char>)
    requires
        requirement_satisfied_spec(requirement, v) == Some(true),
        parse_semver_spec(w) is Some,
        le(semver_order_spec(parse_semver_spec(v)->0, parse_semver_spec(w)->0)),
    ensures
        requirement_satisfied_spec(requirement, w) == Some(true),
{
    let floor = strip_prefix_spec(trim_spec(requirement), ">="@)->0;
    let want = parse_semver_spec(floor)->0;
    let hv = parse_semver_spec(v)->0;
    let hw = parse_semver_spec(w)->0;
    lemma_semver_order_antisymmetric(hv, want);
    lemma_semver_order_antisymmetric(hw, want);
    lemma_semver_order_transitive(want, hv, hw);
}

/// Without a parseable version on both sides the comparison fails closed
/// to `None` instead of warning wrongly.
pub proof fn lemma_requirement_unparseable_no_verdict(requirement: Seq<char>, version: Seq<char>)
    requires
        parse_semver_spec(version) is None || (strip_prefix_spec(trim_spec(requirement), ">="@) matches Some(floor)
            && parse_semver_spec(floor) is None),
    ensures
        requirement_satisfied_spec(requirement, version) is None,
{
}

/// A version written out: `MAJOR.MINOR.PATCH` in decimal, optionally behind
/// a `v` and followed by `-PRE`.
pub open spec fn printed_version(v_prefix: bool, a: u64, b: u64, c: u64, pre: Option<Seq<char>>) -> Seq<char> {
    (if v_prefix {
        "v"@
    } else {
        Seq::empty()
    }) + printed_numbers(a, b, c) + (
    match pre {
        Some(p) => "-"@ + p,
        None => Seq::empty(),
    })
}

pub open spec fn printed_numbers(a: u64, b: u64, c: u64) -> Seq<char> {
    decimal_spec(a as nat) + "."@ + decimal_spec(b as nat) + "."@ + decimal_spec(c as nat)
}

proof fn lemma_trim_end_shrinks(s: Seq<char>)
    ensures
        trim_end_spec(s).len() <= s.len(),
    decreases s.len(),
{
    if s.len() > 0 && is_ws(s.last()) {
        lemma_trim_end_shrinks(s.drop_last());
    }
}

proof fn lemma_printed_numbers(a: u64, b: u64, c: u64)
    ensures
        printed_numbers(a, b, c).len() > 0,
        is_digit(printed_numbers(a, b, c)[0]),
        is_digit(printed_numbers(a, b, c).last()),
        forall|j: int|
            0 <= j < printed_numbers(a, b, c).len() ==> #[trigger] printed_numbers(a, b, c)[j]
                != '-',
        split_spec(printed_numbers(a, b, c), '.') == seq![
            decimal_spec(a as nat),
            decimal_spec(b as nat),
            decimal_spec(c as nat),
        ],
{
    reveal_strlit(".");
    let da = decimal_spec(a as nat);
    let db = decimal_spec(b as nat);
    let dc = decimal_spec(c as nat);
    lemma_decimal(a as nat);
    lemma_decimal(b as nat);
    lemma_decimal(c as nat);
    let nums = printed_numbers(a, b, c);
    assert(nums =~= da + seq!['.'] + db + seq!['.'] + dc);
    assert forall|j: int| 0 <= j < nums.len() implies #[trigger] nums[j] != '-' by {
        if j < da.len() {
            assert(nums[j] == da[j]);
            lemma_digit_is_plain(da[j]);
        } else if j == da.len() {
        } else if j < da.len() + 1 + db.len() {
            assert(nums[j] == db[j - da.len() - 1]);
            lemma_digit_is_plain(db[j - da.len() - 1]);
        } else if j == da.len() + 1 + db.len() {
        } else {
            assert(nums[j] == dc[j - da.len() - 2 - db.len()]);
            lemma_digit_is_plain(dc[j - da.len() - 2 - db.len()]);
        }
    }
    assert(nums[0] == da[0]);
    assert(nums.last() == dc.last());
    assert forall|j: int| 0 <= j < da.len() implies #[trigger] da[j] != '.' by {
        lemma_digit_is_plain(da[j]);
    }
    assert forall|j: int| 0 <= j < db.len() implies #[trigger] db[j] != '.' by {
        lemma_digit_is_plain(db[j]);
    }
    assert forall|j: int| 0 <= j < dc.len() implies #[trigger] dc[j] != '.' by {
        lemma_digit_is_plain(dc[j]);
    }
    let r2 = seq!['.'] + dc;
    let r1 = seq!['.'] + (db + r2);
    assert(nums =~= da + r1);
    lemma_split_acc_plain(da, r1, '.', Seq::empty());
    assert(Seq::<char>::empty() + da =~= da);
    lemma_split_acc_sep(db + r2, '.', da);
    lemma_split_acc_plain(db, r2, '.', Seq::empty());
    assert(Seq::<char>::empty() + db =~= db);
    lemma_split_acc_sep(dc, '.', db);
    assert(dc =~= dc + Seq::<char>::empty());
    lemma_split_acc_plain(dc, Seq::empty(), '.', Seq::empty());
    assert(Seq::<char>::empty() + dc =~= dc);
    assert(split_spec(nums, '.') =~= seq![da, db, dc]);
}

/// Parsing a printed version gives back its numbers and its tag, whenever
/// the tag does not end in whitespace.
pub proof fn lemma_parse_printed_version(
    v_prefix: bool,
    a: u64,
    b: u64,
    c: u64,
    pre: Option<Seq<char>>,
)
    requires
        pre matches Some(p) ==> trim_end_spec(p) == p,
    ensures
        parse_semver_spec(printed_version(v_prefix, a, b, c, pre)) == Some((a, b, c, pre)),
{
    reveal_strlit("v");
    reveal_strlit(".");
    reveal_strlit("-");
    lemma_printed_numbers(a, b, c);
    lemma_parse_decimal(a);
    lemma_parse_decimal(b);
    lemma_parse_decimal(c);
    let nums = printed_numbers(a, b, c);
    let head: Seq<char> = if v_prefix {
        "v"@
    } else {
        Seq::empty()
    };
    let tail: Seq<char> = match pre {
        Some(p) => "-"@ + p,
        None => Seq::empty(),
    };
    let body = nums + tail;
    let s = printed_version(v_prefix, a, b, c, pre);
    assert(s =~= head + body);
    lemma_digit_is_plain(nums[0]);
    lemma_digit_is_plain(nums.last());
    assert(s[0] == (if v_prefix { 'v' } else { nums[0] }));
    match pre {
        Some(p) => {
            if p.len() > 0 {
                assert(s.last() == p.last());
                if is_ws(p.last()) {
                    lemma_trim_end_shrinks(p.drop_last());
                    assert(false);
                }
            } else {
                assert(s.last() == '-');
            }
        },
        None => {
            assert(s.last() == nums.last());
        },
    }
    lemma_trim_plain_ends(s);
    assert(strip_v(s) =~= body);
    assert forall|j: int| 0 <= j < nums.len() implies #[trigger] body[j] != '-' by {
        assert(body[j] == nums[j]);
    }
    match pre {
        Some(p) => {
            lemma_first_index(body, '-', nums.len() as int);
            assert(body.take(nums.len() as int) =~= nums);
            assert(body.skip(nums.len() as int + 1) =~= p);
        },
        None => {
            assert(body =~= nums);
            lemma_first_index(body, '-', nums.len() as int);
        },
    }
}

// ---------------------------------------------------------------------------
// Executable functions
// ---------------------------------------------------------------------------

/// Order of two numbers.
pub fn num_compare(m: u64, n: u64) -> (r: Order)
    ensures
        r == num_order(m, n),
{
    if m < n {
        Order::Less
    } else if m == n {
        Order::Equal
    } else {
        Order::Greater
    }
}

/// Lexicographic order of two strings.
pub fn lex_compare(a: &str, b: &str) -> (r: Order)
    ensures
        r == lex_order(a@, b@),
{
    let n = a.unicode_len();
    let m = b.unicode_len();
    let mut i: usize = 0;
    assert(a@.skip(0) =~= a@);
    assert(b@.skip(0) =~= b@);
    while i < n && i < m
        invariant
            n == a@.len(),
            m == b@.len(),
            i <= n,
            i <= m,
            lex_order(a@, b@) == lex_order(a@.skip(i as int), b@.skip(i as int)),
        decreases n - i,
    {
        let x = a.get_char(i);
        let y = b.get_char(i);
        if x < y {
            return Order::Less;
        }
        if x > y {
            return Order::Greater;
        }
        assert(a@.skip(i as int).drop_first() =~= a@.skip(i + 1));
        assert(b@.skip(i as int).drop_first() =~= b@.skip(i + 1));
        i = i + 1;
    }
    if i == n && i == m {
        Order::Equal
    } else if i == n {
        Order::Less
    } else {
        Order::Greater
    }
}

/// Order of two pre-release identifiers.
pub fn ident_compare(a: &str, b: &str) -> (r: Order)
    ensures
        r == ident_order(a@, b@),
{
    match (parse_u64(a), parse_u64(b)) {
        (Some(m), Some(n)) => num_compare(m, n),
        (Some(_), None) => Order::Less,
        (None, Some(_)) => Order::Greater,
        (None, None) => lex_compare(a, b),
    }
}

/// Order of two pre-release tags.
pub fn prerelease_order(x: &str, y: &str) -> (r: Order)
    ensures
        r == prerelease_order_spec(x@, y@),
{
    let xs = split_char(x, '.');
    let ys = split_char(y, '.');
    let n = xs.len();
    let m = ys.len();
    let ghost xv = xs.deep_view();
    let ghost yv = ys.deep_view();
    let mut k: usize = 0;
    assert(xv.skip(0) =~= xv);
    assert(yv.skip(0) =~= yv);
    while k < n && k < m
        invariant
            n == xv.len(),
            m == yv.len(),
            xv == xs.deep_view(),
            yv == ys.deep_view(),
            k <= n,
            k <= m,
            prerelease_order_spec(x@, y@) == pieces_order(xv.skip(k as int), yv.skip(k as int)),
        decreases n - k,
    {
        let o = ident_compare(xs[k].as_str(), ys[k].as_str());
        assert(xv.skip(k as int)[0] == xs@[k as int]@);
        assert(yv.skip(k as int)[0] == ys@[k as int]@);
        match o {
            Order::Equal => {},
            _ => {
                return o;
            },
        }
        assert(xv.skip(k as int).drop_first() =~= xv.skip(k + 1));
        assert(yv.skip(k as int).drop_first() =~= yv.skip(k + 1));
        k = k + 1;
    }
    if k == n && k == m {
        Order::Equal
    } else if k == n {
        Order::Less
    } else {
        Order::Greater
    }
}

/// Order of two versions.
pub fn semver_order(a: &SemVer, b: &SemVer) -> (r: Order)
    ensures
        r == semver_order_spec(semver_view(*a), semver_view(*b)),
{
    let o = if a.0 != b.0 {
        num_compare(a.0, b.0)
    } else if a.1 != b.1 {
        num_compare(a.1, b.1)
    } else {
        num_compare(a.2, b.2)
    };
    match o {
        Order::Equal => {},
        _ => {
            return o;
        },
    }
    match (&a.3, &b.3) {
        (None, None) => Order::Equal,
        (None, Some(_)) => Order::Greater,
        (Some(_), None) => Order::Less,
        (Some(x), Some(y)) => prerelease_order(x.as_str(), y.as_str()),
    }
}

/// Reads `[v]MAJOR.MINOR.PATCH[-PRE]`, ignoring surrounding whitespace.
pub fn parse_semver(s: &str) -> (r: Option<SemVer>)
    ensures
        match r {
            Some(v) => parse_semver_spec(s@) == Some(semver_view(v)),
            None => parse_semver_spec(s@).is_none(),
        },
{
    let t = trim(s);
    let tl = t.unicode_len();
    let body = if tl > 0 && t.get_char(0) == 'v' {
        t.substring_char(1, tl)
    } else {
        t
    };
    assert(body@ == strip_v(trim_spec(s@)));
    let (nums, pre): (&str, Option<String>) = match split_once(body, '-') {
        Some((n, p)) => (n, Some(String::from_str(p))),
        None => (body, None),
    };
    let parts = split_char(nums, '.');
    if parts.len() != 3 {
        return None;
    }
    let major = match parse_u64(parts[0].as_str()) {
        Some(x) => x,
        None => {
            return None;
        },
    };
    let minor = match parse_u64(parts[1].as_str()) {
        Some(x) => x,
        None => {
            return None;
        },
    };
    let patch = match parse_u64(parts[2].as_str()) {
        Some(x) => x,
        None => {
            return None;
        },
    };
    Some((major, minor, patch, pre))
}

/// Whether `version` meets a requirement of the form `>=FLOOR`; `None` when
/// no trustworthy verdict exists (other requirement form, or either side
/// unparseable).
pub fn requirement_satisfied(requirement: &str, version: &str) -> (r: Option<bool>)
    ensures
        r == requirement_satisfied_spec(requirement@, version@),
{
    let floor = match strip_prefix(trim(requirement), ">=") {
        Some(f) => f,
        None => {
            return None;
        },
    };
    let want = match parse_semver(floor) {
        Some(w) => w,
        None => {
            return None;
        },
    };
    let have = match parse_semver(version) {
        Some(h) => h,
        None => {
            return None;
        },
    };
    match semver_order(&have, &want) {
        Order::Less => Some(false),
        _ => Some(true),
    }
}

/// The version a backend printed for `--version` (raw output bytes).
pub fn version_token(stdout: &[u8]) -> (r: Option<String>)
    ensures
        r.deep_view() == version_token_spec(lossy_text(stdout@)),
{
    let text = utf8_lossy(stdout);
    let toks = whitespace_tokens(text.as_str());
    if toks.len() == 0 {
        return None;
    }
    let first = trim(toks[0].as_str());
    let token = trim_start_char(first, 'v');
    match parse_semver(token) {
        Some(_) => Some(String::from_str(token)),
        None => None,
    }
}

} // verus!
