use vstd::arithmetic::div_mod::lemma_div_is_ordered;
use vstd::arithmetic::mul::lemma_mul_inequality;
use vstd::prelude::*;

verus! {

/// The character that writes the decimal digit `d` (`d < 10`).
pub open spec fn digit_char(d: nat) -> char {
    if d == 0 {
        '0'
    } else if d == 1 {
        '1'
    } else if d == 2 {
        '2'
    } else if d == 3 {
        '3'
    } else if d == 4 {
        '4'
    } else if d == 5 {
        '5'
    } else if d == 6 {
        '6'
    } else if d == 7 {
        '7'
    } else if d == 8 {
        '8'
    } else {
        '9'
    }
}

/// The decimal rendering of `n`: no sign, no leading zeros, "0" for zero.
pub open spec fn decimal(n: nat) -> Seq<char>
    decreases n,
{
    if n < 10 {
        seq![digit_char(n)]
    } else {
        decimal(n / 10).push(digit_char(n % 10))
    }
}

/// `s` with every match of `pat` replaced by `rep`, matches taken from the left
/// and never overlapping.
pub open spec fn replaced(s: Seq<char>, pat: Seq<char>, rep: Seq<char>) -> Seq<char>
    decreases s.len(),
{
    if s.len() == 0 || pat.len() == 0 {
        s
    } else if pat.is_prefix_of(s) {
        rep + replaced(s.skip(pat.len() as int), pat, rep)
    } else {
        seq![s[0]] + replaced(s.skip(1), pat, rep)
    }
}

/// Appends one character to a string (`String::push`).
#[verifier::external_body]
fn push_char(s: &mut String, c: char)
    ensures
        final(s)@ == old(s)@.push(c),
{
    s.push(c);
}

fn digit(d: u64) -> (c: char)
    requires
        d < 10,
    ensures
        c == digit_char(d as nat),
{
    if d == 0 {
        '0'
    } else if d == 1 {
        '1'
    } else if d == 2 {
        '2'
    } else if d == 3 {
        '3'
    } else if d == 4 {
        '4'
    } else if d == 5 {
        '5'
    } else if d == 6 {
        '6'
    } else if d == 7 {
        '7'
    } else if d == 8 {
        '8'
    } else {
        '9'
    }
}

fn push_decimal(s: &mut String, n: u64)
    ensures
        final(s)@ == old(s)@ + decimal(n as nat),
    decreases n,
{
    if n >= 10 {
        push_decimal(s, n / 10);
    }
    push_char(s, digit(n % 10));
    proof {
        if n >= 10 {
            assert(old(s)@ + decimal(n as nat) =~= old(s)@ + decimal((n / 10) as nat) + seq![digit_char((n % 10) as nat)]);
        } else {
            assert(old(s)@ + decimal(n as nat) =~= old(s)@.push(digit_char((n % 10) as nat)));
        }
    }
}

/// The decimal rendering of `n` as a string.
pub fn decimal_string(n: u64) -> (s: String)
    ensures
        s@ == decimal(n as nat),
{
    let mut s = String::new();
    push_decimal(&mut s, n);
    assert(s@ =~= decimal(n as nat));
    s
}


/// The characters of `s`, in order.
fn chars_of(s: &str) -> (v: Vec<char>)
    ensures
        v@ == s@,
{
    let mut v: Vec<char> = Vec::new();
    for c in it: s.chars()
        invariant
            v@ == it.seq().take(it.index() as int),
            it.seq() == s@,
    {
        v.push(c);
    }
    assert(v@ =~= s@);
    v
}


/// Whether `pat` occurs in `t` starting at index `i`.
fn matches_at(t: &Vec<char>, pat: &Vec<char>, i: usize) -> (b: bool)
    requires
        i <= t@.len(),
    ensures
        b == pat@.is_prefix_of(t@.skip(i as int)),
{
    if pat.len() > t.len() - i {
        return false;
    }
    let mut j: usize = 0;
    while j < pat.len()
        invariant
            i + pat@.len() <= t@.len(),
            t@.len() <= usize::MAX,
            j <= pat@.len(),
            forall|k: int| 0 <= k < j ==> pat@[k] == t@[i + k],
        decreases pat@.len() - j,
    {
        if pat[j] != t[i + j] {
            assert(pat@[j as int] != t@.skip(i as int)[j as int]);
            return false;
        }
        j = j + 1;
    }
    assert(pat@ =~= t@.skip(i as int).subrange(0, pat@.len() as int));
    true
}

proof fn lemma_replaced_step(s: Seq<char>, pat: Seq<char>, rep: Seq<char>, i: int)
    requires
        0 <= i < s.len(),
        pat.len() > 0,
    ensures
        pat.is_prefix_of(s.skip(i)) ==> replaced(s.skip(i), pat, rep) == rep + replaced(
            s.skip(i + pat.len()),
            pat,
            rep,
        ),
        !pat.is_prefix_of(s.skip(i)) ==> replaced(s.skip(i), pat, rep) == seq![s[i]] + replaced(
            s.skip(i + 1),
            pat,
            rep,
        ),
{
    if pat.is_prefix_of(s.skip(i)) {
        assert(s.skip(i).skip(pat.len() as int) =~= s.skip(i + pat.len()));
    }
    assert(s.skip(i).skip(1) =~= s.skip(i + 1));
}

/// `text` with every match of `pat` replaced by `rep` (`str::replace`).
pub fn replace_all(text: &str, pat: &str, rep: &str) -> (res: String)
    requires
        pat@.len() > 0,
    ensures
        res@ == replaced(text@, pat@, rep@),
{
    let t = chars_of(text);
    let p = chars_of(pat);
    let r = chars_of(rep);
    let mut res = String::new();
    let mut i: usize = 0;
    assert(t@.skip(0) =~= t@);
    while i < t.len()
        invariant
            t@ == text@,
            p@ == pat@,
            r@ == rep@,
            p@.len() > 0,
            i <= t@.len(),
            res@ + replaced(t@.skip(i as int), p@, r@) == replaced(t@, p@, r@),
        decreases t@.len() - i,
    {
        proof {
            lemma_replaced_step(t@, p@, r@, i as int);
        }
        if matches_at(&t, &p, i) {
            let ghost before = res@;
            let mut k: usize = 0;
            while k < r.len()
                invariant
                    r@ == rep@,
                    k <= r@.len(),
                    res@ == before + r@.take(k as int),
                decreases r@.len() - k,
            {
                push_char(&mut res, r[k]);
                assert(r@.take(k + 1) =~= r@.take(k as int).push(r@[k as int]));
                k = k + 1;
            }
            assert(r@.take(k as int) =~= r@);
            assert(res@ + replaced(t@.skip(i + p@.len()), p@, r@) =~= before + (r@ + replaced(
                t@.skip(i + p@.len()),
                p@,
                r@,
            )));
            i = i + p.len();
        } else {
            let ghost before = res@;
            push_char(&mut res, t[i]);
            assert(res@ + replaced(t@.skip(i + 1), p@, r@) =~= before + (seq![t@[i as int]]
                + replaced(t@.skip(i + 1), p@, r@)));
            i = i + 1;
        }
    }
    assert(t@.skip(i as int).len() == 0);
    assert(res@ =~= res@ + replaced(t@.skip(i as int), p@, r@));
    res
}


/// The estimated wait in seconds of the player at 1-based `position`: the number of
/// push rounds ahead of them times the push interval, or 0 when nobody is pushed.
pub open spec fn eta_seconds(position: nat, push_interval_secs: nat, push_count: nat) -> nat {
    if push_count == 0 {
        0
    } else {
        (if position >= 1 {
            (position - 1) as nat
        } else {
            0
        } / push_count) * push_interval_secs
    }
}

/// `text` with `{position}`, `{total}`, `{player}` and `{eta}` filled in, in that order.
pub open spec fn placeholders_applied(
    text: Seq<char>,
    position: nat,
    total: nat,
    player: Seq<char>,
    push_interval_secs: nat,
    push_count: nat,
) -> Seq<char> {
    let with_position = replaced(text, "{position}"@, decimal(position));
    let with_total = replaced(with_position, "{total}"@, decimal(total));
    let with_player = replaced(with_total, "{player}"@, player);
    replaced(with_player, "{eta}"@, decimal(eta_seconds(position, push_interval_secs, push_count)))
}

/// Fills the queue placeholders of a display text.
///
/// `{position}` and `{total}` become the decimal position and queue length,
/// `{player}` the player's name, and `{eta}` the estimated wait in seconds.
/// The estimated wait must fit in a `u64`.
pub fn apply_placeholders(
    text: &str,
    position: usize,
    total: usize,
    player: &str,
    push_interval_secs: u64,
    push_count: usize,
) -> (res: String)
    requires
        eta_seconds(position as nat, push_interval_secs as nat, push_count as nat) <= u64::MAX,
    ensures
        res@ == placeholders_applied(
            text@,
            position as nat,
            total as nat,
            player@,
            push_interval_secs as nat,
            push_count as nat,
        ),
{
    let eta: u64 = if push_count == 0 {
        0
    } else {
        let rounds: usize = position.saturating_sub(1) / push_count;
        (rounds as u64) * push_interval_secs
    };
    proof {
        reveal_strlit("{position}");
        reveal_strlit("{total}");
        reveal_strlit("{player}");
        reveal_strlit("{eta}");
    }
    let position_text = decimal_string(position as u64);
    let total_text = decimal_string(total as u64);
    let eta_text = decimal_string(eta);
    let with_position = replace_all(text, "{position}", position_text.as_str());
    let with_total = replace_all(with_position.as_str(), "{total}", total_text.as_str());
    let with_player = replace_all(with_total.as_str(), "{player}", player);
    replace_all(with_player.as_str(), "{eta}", eta_text.as_str())
}


/// Replacing a pattern whose first character does not occur in `s` leaves `s` as it is.
pub proof fn lemma_replaced_absent(s: Seq<char>, pat: Seq<char>, rep: Seq<char>)
    requires
        pat.len() > 0,
        !s.contains(pat[0]),
    ensures
        replaced(s, pat, rep) == s,
    decreases s.len(),
{
    if s.len() > 0 {
        assert(s[0] != pat[0]);
        assert(!pat.is_prefix_of(s));
        let rest = s.skip(1);
        assert forall|c: char| rest.contains(c) implies s.contains(c) by {
            let k = choose|k: int| 0 <= k < rest.len() && rest[k] == c;
            assert(s[k + 1] == c);
        }
        lemma_replaced_absent(rest, pat, rep);
        assert(s =~= seq![s[0]] + rest);
    }
}

/// A text without an opening brace holds no placeholder and is shown as written.
pub proof fn lemma_plain_text_unchanged(
    text: Seq<char>,
    position: nat,
    total: nat,
    player: Seq<char>,
    push_interval_secs: nat,
    push_count: nat,
)
    requires
        !text.contains('{'),
    ensures
        placeholders_applied(text, position, total, player, push_interval_secs, push_count)
            == text,
{
    reveal_strlit("{position}");
    reveal_strlit("{total}");
    reveal_strlit("{player}");
    reveal_strlit("{eta}");
    lemma_replaced_absent(text, "{position}"@, decimal(position));
    lemma_replaced_absent(text, "{total}"@, decimal(total));
    lemma_replaced_absent(text, "{player}"@, player);
    lemma_replaced_absent(
        text,
        "{eta}"@,
        decimal(eta_seconds(position, push_interval_secs, push_count)),
    );
}

/// The player at the front of the queue waits no time, and a player further back
/// never has a shorter estimated wait than one ahead of them.
pub proof fn lemma_eta_monotone(
    position: nat,
    later_position: nat,
    push_interval_secs: nat,
    push_count: nat,
)
    requires
        position <= later_position,
    ensures
        eta_seconds(1, push_interval_secs, push_count) == 0,
        eta_seconds(position, push_interval_secs, push_count) <= eta_seconds(
            later_position,
            push_interval_secs,
            push_count,
        ),
{
    if push_count > 0 {
        let a: int = if position >= 1 {
            position - 1
        } else {
            0
        };
        let b: int = if later_position >= 1 {
            later_position - 1
        } else {
            0
        };
        lemma_div_is_ordered(a, b, push_count as int);
        lemma_mul_inequality(a / push_count as int, b / push_count as int, push_interval_secs as int);
        assert(0int / (push_count as int) == 0);
    }
}


/// Whether `c` is one of the characters `0` to `9`.
pub open spec fn is_digit(c: char) -> bool {
    '0' <= c <= '9'
}

/// The number a string of decimal digits stands for, the last digit the units.
pub open spec fn digits_value(s: Seq<char>) -> int
    decreases s.len(),
{
    if s.len() == 0 {
        0
    } else {
        digits_value(s.drop_last()) * 10 + (s.last() as int - '0' as int)
    }
}

proof fn lemma_digit_char(d: nat)
    requires
        d < 10,
    ensures
        is_digit(digit_char(d)),
        digit_char(d) as int - '0' as int == d,
        d > 0 ==> digit_char(d) != '0',
{
    assert('0' as int == 48);
    assert('9' as int == 57);
}

/// The decimal rendering of a number is a non-empty string of digits, without a
/// leading zero unless it is zero itself, that stands for the number.
pub proof fn lemma_decimal_digits(n: nat)
    ensures
        decimal(n).len() >= 1,
        forall|i: int| 0 <= i < decimal(n).len() ==> is_digit(#[trigger] decimal(n)[i]),
        decimal(n)[0] == '0' ==> n == 0,
        digits_value(decimal(n)) == n,
    decreases n,
{
    lemma_digit_char(n % 10);
    if n < 10 {
        assert(decimal(n).drop_last().len() == 0);
        assert(digits_value(decimal(n).drop_last()) == 0);
        assert(n % 10 == n);
    } else {
        lemma_decimal_digits(n / 10);
        let d = decimal(n);
        let q = decimal(n / 10);
        assert(d.drop_last() =~= q);
        assert forall|i: int| 0 <= i < d.len() implies is_digit(#[trigger] d[i]) by {
            if i < q.len() {
                assert(d[i] == q[i]);
            }
        }
        assert(d[0] == q[0]);
        assert(d.last() == digit_char(n % 10));
        assert(digits_value(d) == digits_value(q) * 10 + (n % 10) as int);
        assert((n / 10) * 10 + n % 10 == n);
    }
}

proof fn lemma_replaced_short(s: Seq<char>, pat: Seq<char>, rep: Seq<char>)
    requires
        pat.len() > 0,
        s.len() < pat.len(),
    ensures
        replaced(s, pat, rep) == s,
    decreases s.len(),
{
    if s.len() > 0 {
        lemma_replaced_short(s.skip(1), pat, rep);
        assert(s =~= seq![s[0]] + s.skip(1));
    }
}

proof fn lemma_replaced_whole(pat: Seq<char>, rep: Seq<char>)
    requires
        pat.len() > 0,
    ensures
        replaced(pat, pat, rep) == rep,
{
    assert(pat.is_prefix_of(pat)) by {
        assert(pat.subrange(0, pat.len() as int) =~= pat);
    }
    let rest = pat.skip(pat.len() as int);
    assert(rest.len() == 0);
    assert(replaced(rest, pat, rep) == rest);
    assert(rep + rest =~= rep);
}

proof fn lemma_replaced_head_mismatch(s: Seq<char>, pat: Seq<char>, rep: Seq<char>)
    requires
        pat.len() > 0,
        s.len() > 0,
        !pat.is_prefix_of(s),
        !s.skip(1).contains(pat[0]),
    ensures
        replaced(s, pat, rep) == s,
{
    lemma_replaced_absent(s.skip(1), pat, rep);
    assert(s =~= seq![s[0]] + s.skip(1));
}

proof fn lemma_decimal_unchanged(n: nat, pat: Seq<char>, rep: Seq<char>)
    requires
        pat.len() > 0,
        pat[0] == '{',
    ensures
        replaced(decimal(n), pat, rep) == decimal(n),
{
    lemma_decimal_digits(n);
    assert(!decimal(n).contains('{')) by {
        if decimal(n).contains('{') {
            let i = choose|i: int| 0 <= i < decimal(n).len() && decimal(n)[i] == '{';
            assert(is_digit(decimal(n)[i]));
        }
    }
    lemma_replaced_absent(decimal(n), pat, rep);
}

/// A text that is one placeholder alone shows its value: the position, the total,
/// the player's name (when it holds no opening brace), or the estimated wait, which
/// is the number of full push rounds ahead of the player times the push interval.
pub proof fn lemma_single_placeholders(
    position: nat,
    total: nat,
    player: Seq<char>,
    push_interval_secs: nat,
    push_count: nat,
)
    ensures
        placeholders_applied("{position}"@, position, total, player, push_interval_secs, push_count)
            == decimal(position),
        placeholders_applied("{total}"@, position, total, player, push_interval_secs, push_count)
            == decimal(total),
        !player.contains('{') ==> placeholders_applied(
            "{player}"@,
            position,
            total,
            player,
            push_interval_secs,
            push_count,
        ) == player,
        placeholders_applied("{eta}"@, position, total, player, push_interval_secs, push_count)
            == decimal(
            if push_count == 0 {
                0
            } else if position == 0 {
                0
            } else {
                ((position - 1) as nat / push_count) * push_interval_secs
            },
        ),
{
    reveal_strlit("{position}");
    reveal_strlit("{total}");
    reveal_strlit("{player}");
    reveal_strlit("{eta}");
    let p = "{position}"@;
    let t = "{total}"@;
    let pl = "{player}"@;
    let e = "{eta}"@;
    let eta = eta_seconds(position, push_interval_secs, push_count);
    // "{position}"
    lemma_replaced_whole(p, decimal(position));
    lemma_decimal_unchanged(position, t, decimal(total));
    lemma_decimal_unchanged(position, pl, player);
    lemma_decimal_unchanged(position, e, decimal(eta));
    // "{total}"
    lemma_replaced_short(t, p, decimal(position));
    lemma_replaced_whole(t, decimal(total));
    lemma_decimal_unchanged(total, pl, player);
    lemma_decimal_unchanged(total, e, decimal(eta));
    // "{player}"
    lemma_replaced_short(pl, p, decimal(position));
    assert(!t.is_prefix_of(pl)) by {
        assert(pl.subrange(0, t.len() as int)[1] != t[1]);
    }
    assert(!pl.skip(1).contains('{')) by {
        if pl.skip(1).contains('{') {
            let i = choose|i: int| 0 <= i < pl.skip(1).len() && pl.skip(1)[i] == '{';
            assert(pl.skip(1)[i] == pl[i + 1]);
        }
    }
    lemma_replaced_head_mismatch(pl, t, decimal(total));
    lemma_replaced_whole(pl, player);
    if !player.contains('{') {
        lemma_replaced_absent(player, e, decimal(eta));
    }
    // "{eta}"
    lemma_replaced_short(e, p, decimal(position));
    lemma_replaced_short(e, t, decimal(total));
    lemma_replaced_short(e, pl, player);
    lemma_replaced_whole(e, decimal(eta));
    if push_count > 0 && position == 0 {
        assert(0nat / push_count == 0);
        assert(0nat * push_interval_secs == 0);
    }
}

} // verus!
