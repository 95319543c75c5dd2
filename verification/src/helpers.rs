use vstd::prelude::*;

use crate::error::InitializationError;

verus! {

/// The characters `str::trim` removes: the Unicode `White_Space` set.
pub open spec fn spec_is_whitespace(c: char) -> bool {
    ||| (0x09 <= c as u32 && c as u32 <= 0x0D)
    ||| c as u32 == 0x20
    ||| c as u32 == 0x85
    ||| c as u32 == 0xA0
    ||| c as u32 == 0x1680
    ||| (0x2000 <= c as u32 && c as u32 <= 0x200A)
    ||| c as u32 == 0x2028
    ||| c as u32 == 0x2029
    ||| c as u32 == 0x202F
    ||| c as u32 == 0x205F
    ||| c as u32 == 0x3000
}

/// Whether the character is Unicode white space.
pub fn is_whitespace_char(c: char) -> (r: bool)
    ensures
        r == spec_is_whitespace(c),
{
    let u = c as u32;
    (0x09 <= u && u <= 0x0D) || u == 0x20 || u == 0x85 || u == 0xA0 || u == 0x1680 || (0x2000 <= u
        && u <= 0x200A) || u == 0x2028 || u == 0x2029 || u == 0x202F || u == 0x205F || u == 0x3000
}

/// The characters that remain after dropping leading white space.
pub open spec fn spec_trim_start(s: Seq<char>) -> Seq<char>
    decreases s.len(),
{
    if s.len() > 0 && spec_is_whitespace(s[0]) {
        spec_trim_start(s.drop_first())
    } else {
        s
    }
}

/// The characters that remain after dropping trailing white space.
pub open spec fn spec_trim_end(s: Seq<char>) -> Seq<char>
    decreases s.len(),
{
    if s.len() > 0 && spec_is_whitespace(s.last()) {
        spec_trim_end(s.drop_last())
    } else {
        s
    }
}

/// The characters that remain after dropping white space on both ends,
/// as `str::trim` leaves them.
pub open spec fn spec_trim(s: Seq<char>) -> Seq<char> {
    spec_trim_end(spec_trim_start(s))
}

/// Dropping leading white space keeps the suffix that starts at the
/// first character that is not white space.
proof fn lemma_trim_start_at(s: Seq<char>, k: int)
    requires
        0 <= k <= s.len(),
        forall|i: int| 0 <= i < k ==> spec_is_whitespace(#[trigger] s[i]),
        k < s.len() ==> !spec_is_whitespace(s[k]),
    ensures
        spec_trim_start(s) == s.subrange(k, s.len() as int),
    decreases k,
{
    if k == 0 {
        assert(s.subrange(0, s.len() as int) =~= s);
    } else {
        lemma_trim_start_at(s.drop_first(), k - 1);
        assert(s.drop_first().subrange(k - 1, s.drop_first().len() as int) =~= s.subrange(
            k,
            s.len() as int,
        ));
    }
}

/// Dropping trailing white space keeps the prefix that ends after the
/// last character that is not white space.
proof fn lemma_trim_end_at(s: Seq<char>, k: int)
    requires
        0 <= k <= s.len(),
        forall|i: int| k <= i < s.len() ==> spec_is_whitespace(#[trigger] s[i]),
        k > 0 ==> !spec_is_whitespace(s[k - 1]),
    ensures
        spec_trim_end(s) == s.subrange(0, k),
    decreases s.len() - k,
{
    if k == s.len() {
        if s.len() > 0 && spec_is_whitespace(s.last()) {
            assert(false);
        }
        assert(s.subrange(0, s.len() as int) =~= s);
    } else {
        lemma_trim_end_at(s.drop_last(), k);
        assert(s.drop_last().subrange(0, k) =~= s.subrange(0, k));
    }
}

/// The position of the first `';'`, or the length when there is none.
pub open spec fn first_semi(s: Seq<char>) -> nat
    decreases s.len(),
{
    if s.len() == 0 {
        0
    } else if s[0] == ';' {
        0
    } else {
        (1 + first_semi(s.drop_first())) as nat
    }
}

proof fn lemma_first_semi_is(s: Seq<char>, k: int)
    requires
        0 <= k < s.len(),
        s[k] == ';',
        forall|i: int| 0 <= i < k ==> #[trigger] s[i] != ';',
    ensures
        first_semi(s) == k,
    decreases k,
{
    if k > 0 {
        lemma_first_semi_is(s.drop_first(), k - 1);
    }
}

proof fn lemma_first_semi_none(s: Seq<char>)
    requires
        forall|i: int| 0 <= i < s.len() ==> #[trigger] s[i] != ';',
    ensures
        first_semi(s) == s.len(),
    decreases s.len(),
{
    if s.len() > 0 {
        lemma_first_semi_none(s.drop_first());
    }
}

/// The node list a `CONNECT_TO` value holds: the value split on `';'`,
/// empty pieces dropped, and each kept piece trimmed.
pub open spec fn spec_parse_connect_to(s: Seq<char>) -> Seq<Seq<char>>
    decreases s.len(),
{
    let k = first_semi(s);
    if k < s.len() {
        let seg = s.subrange(0, k as int);
        (if seg.len() > 0 {
            seq![spec_trim(seg)]
        } else {
            Seq::<Seq<char>>::empty()
        }) + spec_parse_connect_to(s.subrange(k as int + 1, s.len() as int))
    } else {
        if s.len() > 0 {
            seq![spec_trim(s)]
        } else {
            Seq::<Seq<char>>::empty()
        }
    }
}

/// The views of a sequence of strings.
pub open spec fn string_views(v: Seq<String>) -> Seq<Seq<char>> {
    v.map_values(|s: String| s@)
}

/// The prefix under which configuration keys are looked up: the given
/// one, or `REOOL` when none is given.
pub fn make_prefix(prefix: Option<&str>) -> (r: String)
    ensures
        r@ == (match prefix {
            Some(p) => p@,
            None => "REOOL"@,
        }),
{
    match prefix {
        Some(p) => p.to_owned(),
        None => String::from_str("REOOL"),
    }
}

/// The full name of one configuration key: the prefix, an underscore,
/// and the key.
pub fn env_key(prefix: &str, name: &str) -> (r: String)
    ensures
        r@ == prefix@ + "_"@ + name@,
{
    String::from_str(prefix).concat("_").concat(name)
}

/// Splits a `CONNECT_TO` value into the URIs it holds: pieces between
/// `';'` separators, empty pieces dropped before trimming, the kept
/// ones trimmed.
pub fn parse_connect_to(what: &str) -> (r: Vec<String>)
    ensures
        string_views(r@) == spec_parse_connect_to(what@),
{
    let n = what.unicode_len();
    let mut res: Vec<String> = Vec::new();
    let mut start: usize = 0;
    let mut i: usize = 0;
    proof {
        assert(what@.subrange(0, n as int) =~= what@);
        assert(string_views(res@) =~= Seq::<Seq<char>>::empty());
        assert(string_views(res@) + spec_parse_connect_to(what@) =~= spec_parse_connect_to(
            what@,
        ));
    }
    while i < n
        invariant
            n == what@.len(),
            0 <= start <= i <= n,
            forall|j: int| start <= j < i ==> #[trigger] what@[j] != ';',
            spec_parse_connect_to(what@) == string_views(res@) + spec_parse_connect_to(
                what@.subrange(start as int, n as int),
            ),
        decreases n - i,
    {
        if what.get_char(i) == ';' {
            let ghost rem = what@.subrange(start as int, n as int);
            let ghost k = i - start;
            proof {
                assert forall|j: int| 0 <= j < k implies #[trigger] rem[j] != ';' by {
                    assert(rem[j] == what@[start + j]);
                }
                lemma_first_semi_is(rem, k);
            }
            push_trimmed(what, start, i, &mut res);
            proof {
                assert(rem.subrange(0, k as int) =~= what@.subrange(start as int, i as int));
                assert(rem.subrange(k + 1, rem.len() as int) =~= what@.subrange(
                    i + 1,
                    n as int,
                ));
            }
            start = i + 1;
        }
        i = i + 1;
    }
    let ghost rem = what@.subrange(start as int, n as int);
    proof {
        assert forall|j: int| 0 <= j < rem.len() implies #[trigger] rem[j] != ';' by {
            assert(rem[j] == what@[start + j]);
        }
        lemma_first_semi_none(rem);
    }
    push_trimmed(what, start, n, &mut res);
    proof {
        assert(what@.subrange(start as int, n as int) =~= rem);
        assert(string_views(res@) + Seq::<Seq<char>>::empty() =~= string_views(res@));
    }
    res
}

/// Appends the piece `what[from..to)`, trimmed, unless the piece is
/// empty before trimming.
fn push_trimmed(what: &str, from: usize, to: usize, res: &mut Vec<String>)
    requires
        from <= to <= what@.len(),
    ensures
        string_views(final(res)@) == string_views(old(res)@) + (if to > from {
            seq![spec_trim(what@.subrange(from as int, to as int))]
        } else {
            Seq::<Seq<char>>::empty()
        }),
{
    let ghost seg = what@.subrange(from as int, to as int);
    if to == from {
        proof {
            assert(string_views(res@) + Seq::<Seq<char>>::empty() =~= string_views(res@));
        }
        return ;
    }
    let mut a = from;
    while a < to && is_whitespace_char(what.get_char(a))
        invariant
            from <= a <= to <= what@.len(),
            forall|j: int| from <= j < a ==> spec_is_whitespace(#[trigger] what@[j]),
        decreases to - a,
    {
        a = a + 1;
    }
    let mut b = to;
    while b > a && is_whitespace_char(what.get_char(b - 1))
        invariant
            from <= a <= b <= to <= what@.len(),
            forall|j: int| b <= j < to ==> spec_is_whitespace(#[trigger] what@[j]),
        decreases b,
    {
        b = b - 1;
    }
    proof {
        let ka = a - from;
        assert forall|j: int| 0 <= j < ka implies spec_is_whitespace(#[trigger] seg[j]) by {
            assert(seg[j] == what@[from + j]);
        }
        if ka < seg.len() {
            assert(seg[ka] == what@[a as int]);
        }
        lemma_trim_start_at(seg, ka);
        let t = seg.subrange(ka, seg.len() as int);
        let kb = b - a;
        assert forall|j: int| kb <= j < t.len() implies spec_is_whitespace(#[trigger] t[j]) by {
            assert(t[j] == what@[a + j]);
        }
        if kb > 0 {
            assert(t[kb - 1] == what@[b - 1]);
        }
        lemma_trim_end_at(t, kb);
        assert(t.subrange(0, kb) =~= what@.subrange(a as int, b as int));
        assert(spec_trim(seg) == what@.subrange(a as int, b as int));
    }
    let piece = what.substring_char(a, b).to_owned();
    res.push(piece);
    proof {
        assert(string_views(res@) =~= string_views(old(res)@) + seq![spec_trim(seg)]);
    }
}

/// A copy of a list of strings, equal text for text.
pub fn clone_string_vec(v: &Vec<String>) -> (r: Vec<String>)
    ensures
        string_views(r@) == string_views(v@),
{
    let mut r: Vec<String> = Vec::new();
    let mut i: usize = 0;
    while i < v.len()
        invariant
            0 <= i <= v@.len(),
            r@.len() == i,
            forall|j: int| 0 <= j < i ==> (#[trigger] r@[j])@ == v@[j]@,
        decreases v@.len() - i,
    {
        r.push(v[i].clone());
        i = i + 1;
    }
    proof {
        assert(string_views(r@) =~= string_views(v@));
    }
    r
}

/// A decimal digit.
pub open spec fn spec_is_digit(c: char) -> bool {
    0x30 <= c as u32 && c as u32 <= 0x39
}

/// The number a sequence of decimal digits denotes.
pub open spec fn digits_value(s: Seq<char>) -> int
    decreases s.len(),
{
    if s.len() == 0 {
        0
    } else {
        digits_value(s.drop_last()) * 10 + (s.last() as u32 - 0x30)
    }
}

/// A non-empty run of decimal digits.
pub open spec fn spec_all_digits(s: Seq<char>) -> bool {
    s.len() > 0 && forall|i: int| 0 <= i < s.len() ==> spec_is_digit(#[trigger] s[i])
}

/// The digits of an unsigned number: the whole text, or what follows a
/// single leading `'+'`.
pub open spec fn spec_u64_body(s: Seq<char>) -> Seq<char> {
    if s.len() > 0 && s[0] == '+' {
        s.drop_first()
    } else {
        s
    }
}

/// What `str::parse` accepts as a `u64`: an optional `'+'`, then
/// digits denoting a value that fits.
pub open spec fn spec_parse_u64_ok(s: Seq<char>) -> bool {
    spec_all_digits(spec_u64_body(s)) && digits_value(spec_u64_body(s)) <= u64::MAX
}

proof fn lemma_digits_value_nonneg(s: Seq<char>)
    requires
        forall|i: int| 0 <= i < s.len() ==> spec_is_digit(#[trigger] s[i]),
    ensures
        digits_value(s) >= 0,
    decreases s.len(),
{
    if s.len() > 0 {
        assert forall|i: int| 0 <= i < s.drop_last().len() implies spec_is_digit(
            #[trigger] s.drop_last()[i],
        ) by {
            assert(s.drop_last()[i] == s[i]);
        }
        lemma_digits_value_nonneg(s.drop_last());
    }
}

/// A prefix of a digit run denotes no more than the whole run.
proof fn lemma_digits_value_take_le(s: Seq<char>, k: int)
    requires
        forall|i: int| 0 <= i < s.len() ==> spec_is_digit(#[trigger] s[i]),
        0 <= k <= s.len(),
    ensures
        digits_value(s.take(k)) <= digits_value(s),
    decreases s.len(),
{
    if k == s.len() {
        assert(s.take(k) =~= s);
    } else {
        assert forall|i: int| 0 <= i < s.drop_last().len() implies spec_is_digit(
            #[trigger] s.drop_last()[i],
        ) by {
            assert(s.drop_last()[i] == s[i]);
        }
        lemma_digits_value_take_le(s.drop_last(), k);
        lemma_digits_value_nonneg(s.drop_last());
        assert(s.take(k) =~= s.drop_last().take(k));
    }
}

/// Reads an unsigned 64-bit number the way `str::parse` does: an
/// optional `'+'`, then decimal digits; anything else, or a value that
/// does not fit, is refused.
pub fn parse_u64(s: &str) -> (r: Result<u64, ()>)
    ensures
        r is Ok <==> spec_parse_u64_ok(s@),
        r matches Ok(v) ==> v == digits_value(spec_u64_body(s@)),
{
    let n = s.unicode_len();
    let mut i: usize = 0;
    if n > 0 && s.get_char(0) == '+' {
        i = 1;
    }
    let ghost i0 = i as int;
    let ghost body = spec_u64_body(s@);
    proof {
        assert(body =~= s@.subrange(i0, n as int));
    }
    if i == n {
        return Err(());
    }
    let mut value: u64 = 0;
    while i < n
        invariant
            n == s@.len(),
            i0 <= i <= n,
            0 <= i0 <= 1,
            body == spec_u64_body(s@),
            body == s@.subrange(i0, n as int),
            forall|j: int| i0 <= j < i ==> spec_is_digit(#[trigger] s@[j]),
            value == digits_value(s@.subrange(i0, i as int)),
        decreases n - i,
    {
        let c = s.get_char(i);
        let u = c as u32;
        if u < 0x30 || u > 0x39 {
            proof {
                assert(body[i - i0] == s@[i as int]);
            }
            return Err(());
        }
        let d = (u - 0x30) as u64;
        let total = (value as u128) * 10 + (d as u128);
        if total > u64::MAX as u128 {
            proof {
                if spec_all_digits(body) {
                    assert(s@.subrange(i0, i + 1).drop_last() =~= s@.subrange(i0, i as int));
                    assert(s@.subrange(i0, i + 1).last() == s@[i as int]);
                    assert(digits_value(s@.subrange(i0, i + 1)) > u64::MAX);
                    assert forall|j: int| 0 <= j < body.len() implies spec_is_digit(
                        #[trigger] body[j],
                    ) by {}
                    assert(s@.subrange(i0, i + 1) =~= body.take(i + 1 - i0));
                    lemma_digits_value_take_le(body, i + 1 - i0);
                }
            }
            return Err(());
        }
        proof {
            assert(s@.subrange(i0, i + 1).drop_last() =~= s@.subrange(i0, i as int));
            assert(s@.subrange(i0, i + 1).last() == s@[i as int]);
        }
        value = total as u64;
        i = i + 1;
    }
    proof {
        assert(body =~= s@.subrange(i0, n as int));
    }
    Ok(value)
}

/// Reads a pool size or similar count the way `str::parse` reads a
/// `usize`.
pub fn parse_usize(s: &str) -> (r: Result<usize, ()>)
    ensures
        r is Ok <==> (spec_parse_u64_ok(s@) && digits_value(spec_u64_body(s@)) <= usize::MAX),
        r matches Ok(v) ==> v == digits_value(spec_u64_body(s@)),
{
    match parse_u64(s) {
        Ok(v) => {
            if v <= usize::MAX as u64 {
                Ok(v as usize)
            } else {
                Err(())
            }
        },
        Err(()) => Err(()),
    }
}

/// The text `NONE`, compared without regard to ASCII case.
pub open spec fn spec_is_none_literal(s: Seq<char>) -> bool {
    &&& s.len() == 4
    &&& (s[0] == 'N' || s[0] == 'n')
    &&& (s[1] == 'O' || s[1] == 'o')
    &&& (s[2] == 'N' || s[2] == 'n')
    &&& (s[3] == 'E' || s[3] == 'e')
}

/// Whether a configuration value spells `NONE`, in any ASCII case.
pub fn is_none_literal(s: &str) -> (r: bool)
    ensures
        r == spec_is_none_literal(s@),
{
    if s.unicode_len() != 4 {
        return false;
    }
    let c0 = s.get_char(0);
    let c1 = s.get_char(1);
    let c2 = s.get_char(2);
    let c3 = s.get_char(3);
    (c0 == 'N' || c0 == 'n') && (c1 == 'O' || c1 == 'o') && (c2 == 'N' || c2 == 'n') && (c3 == 'E'
        || c3 == 'e')
}

/// Reads a `CHECKOUT_TIMEOUT_MS` value: `NONE` means wait
/// indefinitely, a number is the deadline in milliseconds.
pub fn parse_checkout_timeout(s: &str) -> (r: Result<Option<u64>, ()>)
    ensures
        spec_is_none_literal(s@) ==> r == Ok::<Option<u64>, ()>(None::<u64>),
        !spec_is_none_literal(s@) && spec_parse_u64_ok(s@) ==> r == Ok::<Option<u64>, ()>(
            Some(digits_value(spec_u64_body(s@)) as u64),
        ),
        !spec_is_none_literal(s@) && !spec_parse_u64_ok(s@) ==> r is Err,
{
    if is_none_literal(s) {
        Ok(None)
    } else {
        match parse_u64(s) {
            Ok(v) => Ok(Some(v)),
            Err(()) => Err(()),
        }
    }
}

/// Reads a `RESERVATION_LIMIT` value: `NONE` means no cap, a number is
/// the inclusive cap on waiting checkouts.
pub fn parse_reservation_limit(s: &str) -> (r: Result<Option<usize>, ()>)
    ensures
        spec_is_none_literal(s@) ==> r == Ok::<Option<usize>, ()>(None::<usize>),
        !spec_is_none_literal(s@) && spec_parse_u64_ok(s@) && digits_value(spec_u64_body(s@))
            <= usize::MAX ==> r == Ok::<Option<usize>, ()>(
            Some(digits_value(spec_u64_body(s@)) as usize),
        ),
        !spec_is_none_literal(s@) && !(spec_parse_u64_ok(s@) && digits_value(spec_u64_body(s@))
            <= usize::MAX) ==> r is Err,
{
    if is_none_literal(s) {
        Ok(None)
    } else {
        match parse_usize(s) {
            Ok(v) => Ok(Some(v)),
            Err(()) => Err(()),
        }
    }
}

/// Reads a `CONNECT_TO` value into the node list, or reports that the
/// key was found empty. `key` only names the key in the error text.
pub fn connect_to_from_value(key: &str, value: &str) -> (r: Result<
    Vec<String>,
    InitializationError,
>)
    ensures
        match r {
            Ok(parts) => spec_parse_connect_to(value@).len() > 0 && string_views(parts@)
                == spec_parse_connect_to(value@),
            Err(e) => spec_parse_connect_to(value@).len() == 0 && e.spec_message() == Some(
                "Found '"@ + key@ + "' but it is empty"@,
            ),
        },
{
    let parts = parse_connect_to(value);
    if parts.len() > 0 {
        Ok(parts)
    } else {
        let message = String::from_str("Found '").concat(key).concat("' but it is empty");
        Err(InitializationError::message_only(message))
    }
}

} // verus!
