//! Character-level text rules shared by the configuration types: Unicode
//! white space, trimming, and the listen-address normalisation.
use vstd::prelude::*;
use vstd::string::*;

verus! {

/// The Unicode `White_Space` property, which is what `char::is_whitespace`
/// and therefore `str::trim` go by.
pub open spec fn is_white_space(c: char) -> bool {
    let n = c as u32;
    ||| 9 <= n <= 13
    ||| n == 32
    ||| n == 0x85
    ||| n == 0xA0
    ||| n == 0x1680
    ||| 0x2000 <= n <= 0x200A
    ||| n == 0x2028
    ||| n == 0x2029
    ||| n == 0x202F
    ||| n == 0x205F
    ||| n == 0x3000
}

/// `s` without its leading white space.
pub open spec fn trim_start(s: Seq<char>) -> Seq<char>
    decreases s.len(),
{
    if s.len() > 0 && is_white_space(s[0]) {
        trim_start(s.drop_first())
    } else {
        s
    }
}

/// `s` without its trailing white space.
pub open spec fn trim_end(s: Seq<char>) -> Seq<char>
    decreases s.len(),
{
    if s.len() > 0 && is_white_space(s.last()) {
        trim_end(s.drop_last())
    } else {
        s
    }
}

/// `s` without leading and trailing white space, as `str::trim` gives it.
pub open spec fn trim(s: Seq<char>) -> Seq<char> {
    trim_end(trim_start(s))
}

/// Holds when `s` is empty or white space only.
pub open spec fn is_blank(s: Seq<char>) -> bool {
    trim(s).len() == 0
}

/// The wildcard host `0.0.0.0` that a port-only listen address is given.
pub open spec fn wildcard_host() -> Seq<char> {
    seq!['0', '.', '0', '.', '0', '.', '0']
}

/// A listen address after normalisation: surrounding white space removed,
/// and a port-only address such as `:8080` bound to the wildcard host.
pub open spec fn normalized_listen_addr(listen_addr: Seq<char>) -> Seq<char> {
    let trimmed = trim(listen_addr);
    if trimmed.len() > 0 && trimmed[0] == ':' {
        wildcard_host() + trimmed
    } else {
        trimmed
    }
}

/// Decides `is_white_space` on one character.
pub fn char_is_white_space(c: char) -> (b: bool)
    ensures
        b == is_white_space(c),
{
    let n = c as u32;
    (9 <= n && n <= 13) || n == 32 || n == 0x85 || n == 0xA0 || n == 0x1680 || (0x2000 <= n && n
        <= 0x200A) || n == 0x2028 || n == 0x2029 || n == 0x202F || n == 0x205F || n == 0x3000
}

/// Dropping `k` leading white-space characters does not change `trim_start`.
pub proof fn lemma_trim_start_skip(s: Seq<char>, k: int)
    requires
        0 <= k <= s.len(),
        forall|i: int| 0 <= i < k ==> is_white_space(#[trigger] s[i]),
    ensures
        trim_start(s) == trim_start(s.subrange(k, s.len() as int)),
    decreases k,
{
    if k > 0 {
        let t = s.drop_first();
        assert(trim_start(s) == trim_start(t));
        lemma_trim_start_skip(t, k - 1);
        assert(t.subrange(k - 1, t.len() as int) =~= s.subrange(k, s.len() as int));
    } else {
        assert(s.subrange(0, s.len() as int) =~= s);
    }
}

/// Dropping `k` trailing white-space characters does not change `trim_end`.
pub proof fn lemma_trim_end_skip(s: Seq<char>, k: int)
    requires
        0 <= k <= s.len(),
        forall|i: int| s.len() - k <= i < s.len() ==> is_white_space(#[trigger] s[i]),
    ensures
        trim_end(s) == trim_end(s.subrange(0, s.len() - k)),
    decreases k,
{
    if k > 0 {
        let t = s.drop_last();
        assert(trim_end(s) == trim_end(t));
        lemma_trim_end_skip(t, k - 1);
        assert(t.subrange(0, t.len() - (k - 1)) =~= s.subrange(0, s.len() - k));
    } else {
        assert(s.subrange(0, s.len() as int) =~= s);
    }
}

/// `trim_start` leaves a sequence whose first character is not white space,
/// and it is a suffix of the input.
pub proof fn lemma_trim_start_shape(s: Seq<char>)
    ensures
        trim_start(s).len() <= s.len(),
        trim_start(s) =~= s.subrange(s.len() - trim_start(s).len(), s.len() as int),
        trim_start(s).len() > 0 ==> !is_white_space(trim_start(s)[0]),
        trim_start(s).len() == 0 ==> forall|i: int| 0 <= i < s.len() ==> is_white_space(
            #[trigger] s[i],
        ),
    decreases s.len(),
{
    if s.len() > 0 && is_white_space(s[0]) {
        lemma_trim_start_shape(s.drop_first());
        assert forall|i: int| 0 <= i < s.len() && trim_start(s).len() == 0 implies is_white_space(
            #[trigger] s[i],
        ) by {
            if i > 0 {
                assert(s[i] == s.drop_first()[i - 1]);
            }
        }
    }
}

/// `trim_end` leaves a sequence whose last character is not white space,
/// and it is a prefix of the input.
pub proof fn lemma_trim_end_shape(s: Seq<char>)
    ensures
        trim_end(s).len() <= s.len(),
        trim_end(s) =~= s.subrange(0, trim_end(s).len() as int),
        trim_end(s).len() > 0 ==> !is_white_space(trim_end(s).last()),
        trim_end(s).len() == 0 ==> forall|i: int| 0 <= i < s.len() ==> is_white_space(
            #[trigger] s[i],
        ),
    decreases s.len(),
{
    if s.len() > 0 && is_white_space(s.last()) {
        lemma_trim_end_shape(s.drop_last());
        assert forall|i: int| 0 <= i < s.len() && trim_end(s).len() == 0 implies is_white_space(
            #[trigger] s[i],
        ) by {
            if i < s.len() - 1 {
                assert(s[i] == s.drop_last()[i]);
            }
        }
    }
}

/// A sequence that neither starts nor ends with white space is its own trim.
pub proof fn lemma_trim_fixed(s: Seq<char>)
    requires
        s.len() > 0 ==> !is_white_space(s[0]) && !is_white_space(s.last()),
    ensures
        trim(s) == s,
{
}

/// The trimmed text starts and ends with a character that is not white space.
pub proof fn lemma_trim_shape(s: Seq<char>)
    ensures
        trim(s).len() > 0 ==> !is_white_space(trim(s)[0]) && !is_white_space(trim(s).last()),
        trim(s).len() <= s.len(),
{
    lemma_trim_start_shape(s);
    lemma_trim_end_shape(trim_start(s));
    let t = trim_start(s);
    if trim(s).len() > 0 {
        assert(trim(s)[0] == t[0]);
    }
}

/// Law: trimming twice is the same as trimming once.
pub proof fn lemma_trim_idempotent(s: Seq<char>)
    ensures
        trim(trim(s)) == trim(s),
{
    lemma_trim_shape(s);
    lemma_trim_fixed(trim(s));
}

/// Computes the positions that `trim` keeps: `trim(s@) == s@[start..end]`.
pub fn trim_bounds(s: &str) -> (bounds: (usize, usize))
    ensures
        bounds.0 <= bounds.1 <= s@.len(),
        trim(s@) == s@.subrange(bounds.0 as int, bounds.1 as int),
{
    let n = s.unicode_len();
    let mut start: usize = 0;
    while start < n && char_is_white_space(s.get_char(start))
        invariant
            n == s@.len(),
            start <= n,
            forall|i: int| 0 <= i < start ==> is_white_space(#[trigger] s@[i]),
        decreases n - start,
    {
        start = start + 1;
    }
    let mut end: usize = n;
    while end > start && char_is_white_space(s.get_char(end - 1))
        invariant
            n == s@.len(),
            start <= end <= n,
            forall|i: int| end <= i < n ==> is_white_space(#[trigger] s@[i]),
        decreases end - start,
    {
        end = end - 1;
    }
    proof {
        let t = s@.subrange(start as int, n as int);
        lemma_trim_start_skip(s@, start as int);
        if start < n {
            assert(!is_white_space(t[0]));
        }
        assert(trim_start(t) == t);
        lemma_trim_end_skip(t, (n - end) as int);
        let u = t.subrange(0, t.len() - (n - end));
        assert(u =~= s@.subrange(start as int, end as int));
        if end > start {
            assert(!is_white_space(u.last()));
        }
        assert(trim_end(u) == u);
    }
    (start, end)
}

/// Decides `is_blank`: whether `s` is empty or white space only.
pub fn text_is_blank(s: &str) -> (b: bool)
    ensures
        b == is_blank(s@),
{
    let (start, end) = trim_bounds(s);
    start == end
}

/// Normalises a listen address: trims surrounding white space and turns a
/// port-only address such as `:8081` into `0.0.0.0:8081`.
pub fn normalize_listen_addr(listen_addr: &str) -> (normalized: String)
    ensures
        normalized@ == normalized_listen_addr(listen_addr@),
{
    let (start, end) = trim_bounds(listen_addr);
    let trimmed = listen_addr.substring_char(start, end);
    if start < end && listen_addr.get_char(start) == ':' {
        let host = "0.0.0.0";
        proof {
            reveal_strlit("0.0.0.0");
            assert(host@ =~= wildcard_host());
        }
        String::from_str(host).concat(trimmed)
    } else {
        String::from_str(trimmed)
    }
}

/// Law: normalising a listen address twice gives the same address as
/// normalising it once.
pub proof fn lemma_normalize_listen_addr_idempotent(listen_addr: Seq<char>)
    ensures
        normalized_listen_addr(normalized_listen_addr(listen_addr)) == normalized_listen_addr(
            listen_addr,
        ),
{
    let t = trim(listen_addr);
    lemma_trim_shape(listen_addr);
    lemma_trim_idempotent(listen_addr);
    if t.len() > 0 && t[0] == ':' {
        let w = wildcard_host() + t;
        assert(w[0] == '0');
        assert(w.last() == t.last());
        lemma_trim_fixed(w);
    }
}

/// Law: a normalised listen address carries no surrounding white space.
pub proof fn lemma_normalized_listen_addr_trimmed(listen_addr: Seq<char>)
    ensures
        trim(normalized_listen_addr(listen_addr)) == normalized_listen_addr(listen_addr),
{
    lemma_normalize_listen_addr_idempotent(listen_addr);
    let t = trim(listen_addr);
    lemma_trim_shape(listen_addr);
    if t.len() > 0 && t[0] == ':' {
        let w = wildcard_host() + t;
        assert(w[0] == '0');
        assert(w.last() == t.last());
        lemma_trim_fixed(w);
    } else {
        lemma_trim_idempotent(listen_addr);
    }
}

/// Law: a normalised listen address is blank exactly when the given one is,
/// so `build` refuses a listen address set by `with_listen_addr` exactly
/// when that address was empty or white space only.
pub proof fn lemma_normalized_listen_addr_blank(listen_addr: Seq<char>)
    ensures
        is_blank(normalized_listen_addr(listen_addr)) <==> is_blank(listen_addr),
{
    lemma_normalized_listen_addr_trimmed(listen_addr);
    if trim(listen_addr).len() == 0 {
        assert(trim(Seq::<char>::empty()) == Seq::<char>::empty());
    }
}

/// The first entry of `items` that `accepted` refuses, if any.
pub open spec fn first_refused(items: Seq<Seq<char>>, accepted: spec_fn(Seq<char>) -> bool) -> Option<
    Seq<char>,
>
    decreases items.len(),
{
    if items.len() == 0 {
        None
    } else if !accepted(items[0]) {
        Some(items[0])
    } else {
        first_refused(items.drop_first(), accepted)
    }
}

/// Skipping a prefix of accepted entries does not change the first refused one.
pub proof fn lemma_first_refused_skip(
    items: Seq<Seq<char>>,
    accepted: spec_fn(Seq<char>) -> bool,
    k: int,
)
    requires
        0 <= k <= items.len(),
        forall|i: int| 0 <= i < k ==> accepted(#[trigger] items[i]),
    ensures
        first_refused(items, accepted) == first_refused(
            items.subrange(k, items.len() as int),
            accepted,
        ),
    decreases k,
{
    if k > 0 {
        let t = items.drop_first();
        lemma_first_refused_skip(t, accepted, k - 1);
        assert(t.subrange(k - 1, t.len() as int) =~= items.subrange(k, items.len() as int));
    } else {
        assert(items.subrange(0, items.len() as int) =~= items);
    }
}

/// `first_refused` finds nothing exactly when every entry is accepted.
pub proof fn lemma_first_refused_none(items: Seq<Seq<char>>, accepted: spec_fn(Seq<char>) -> bool)
    ensures
        first_refused(items, accepted) is None <==> forall|i: int|
            0 <= i < items.len() ==> accepted(#[trigger] items[i]),
        first_refused(items, accepted) matches Some(x) ==> !accepted(x),
    decreases items.len(),
{
    if items.len() > 0 {
        lemma_first_refused_none(items.drop_first(), accepted);
        if accepted(items[0]) {
            assert forall|i: int|
                0 <= i < items.len() && (forall|j: int|
                    0 <= j < items.drop_first().len() ==> accepted(
                        #[trigger] items.drop_first()[j],
                    )) implies accepted(#[trigger] items[i]) by {
                if i > 0 {
                    assert(items[i] == items.drop_first()[i - 1]);
                }
            }
            assert forall|j: int|
                0 <= j < items.drop_first().len() && (forall|i: int|
                    0 <= i < items.len() ==> accepted(#[trigger] items[i])) implies accepted(
                #[trigger] items.drop_first()[j],
            ) by {
                assert(items.drop_first()[j] == items[j + 1]);
            }
        }
    }
}

/// The views of a slice of string slices.
pub open spec fn str_views(items: Seq<&str>) -> Seq<Seq<char>> {
    items.map_values(|s: &str| s@)
}

/// Copies a slice of string slices into owned strings.
pub fn strings_from(items: &[&str]) -> (owned: Vec<String>)
    ensures
        owned.deep_view() == str_views(items@),
{
    let mut owned: Vec<String> = Vec::new();
    let n = items.len();
    for i in 0..n
        invariant
            n == items@.len(),
            owned@.len() == i,
            owned.deep_view() == str_views(items@).take(i as int),
    {
        let ghost before = owned@;
        let ghost before_deep = owned.deep_view();
        let copy = String::from_str(items[i]);
        owned.push(copy);
        assert(owned@ =~= before.push(copy));
        assert(copy@ == items@[i as int]@);
        assert forall|k: int| 0 <= k < i + 1 implies #[trigger] owned.deep_view()[k] == str_views(
            items@,
        )[k] by {
            if k < i {
                assert(owned@[k] == before[k]);
                assert(before_deep[k] == str_views(items@).take(i as int)[k]);
            }
        }
        assert(owned.deep_view() =~= str_views(items@).take(i + 1));
    }
    assert(str_views(items@).take(n as int) =~= str_views(items@));
    owned
}

/// Law: an address that is not port-only keeps its host: it normalizes to
/// itself with the surrounding white space removed.
pub proof fn lemma_host_listen_addr_kept(listen_addr: Seq<char>)
    requires
        trim(listen_addr).len() == 0 || trim(listen_addr)[0] != ':',
    ensures
        normalized_listen_addr(listen_addr) == trim(listen_addr),
{
}

/// Law: an address without surrounding white space that does not start
/// with `:` is left exactly as it is.
pub proof fn lemma_plain_listen_addr_unchanged(listen_addr: Seq<char>)
    requires
        listen_addr.len() > 0 ==> !is_white_space(listen_addr[0]) && !is_white_space(
            listen_addr.last(),
        ),
        listen_addr.len() == 0 || listen_addr[0] != ':',
    ensures
        normalized_listen_addr(listen_addr) == listen_addr,
{
    lemma_trim_fixed(listen_addr);
}

/// Law: a port-only address gets the host `0.0.0.0` in front of it, and
/// only that.
pub proof fn lemma_port_only_listen_addr_gets_wildcard(listen_addr: Seq<char>)
    requires
        trim(listen_addr).len() > 0,
        trim(listen_addr)[0] == ':',
    ensures
        normalized_listen_addr(listen_addr) == seq!['0', '.', '0', '.', '0', '.', '0'] + trim(
            listen_addr,
        ),
{
    assert(wildcard_host() =~= seq!['0', '.', '0', '.', '0', '.', '0']);
}

} // verus!
