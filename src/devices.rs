use vstd::prelude::*;

verus! {

/// What `str::to_lowercase` makes of a string, as characters.
pub uninterp spec fn lower_of(s: Seq<char>) -> Seq<char>;

/// Relies on `str::to_lowercase`: the lower-case form depends on the
/// characters alone, and an empty string stays empty.
#[verifier::external_body]
fn lowercase_chars(s: &str) -> (r: Vec<char>)
    ensures
        r@ == lower_of(s@),
        s@.len() == 0 ==> r@.len() == 0,
{
    s.to_lowercase().chars().collect()
}

/// `needle` occurs in `hay` as a run of consecutive characters.
pub open spec fn occurs_in(needle: Seq<char>, hay: Seq<char>) -> bool {
    exists|i: int| 0 <= i && i + needle.len() <= hay.len() && #[trigger] hay.subrange(i, i + needle.len()) == needle
}

/// Whether `needle` occurs in `hay`.
pub fn contains_chars(hay: &Vec<char>, needle: &Vec<char>) -> (r: bool)
    ensures
        r == occurs_in(needle@, hay@),
{
    let n = needle.len();
    let h = hay.len();
    if n > h {
        assert forall|i: int| 0 <= i && i + n <= h implies #[trigger] hay@.subrange(i, i + n) != needle@ by {}
        return false;
    }
    let mut i: usize = 0;
    while i <= h - n
        invariant
            n == needle@.len(),
            h == hay@.len(),
            n <= h,
            i <= h - n + 1,
            forall|k: int| 0 <= k < i ==> #[trigger] hay@.subrange(k, k + n) != needle@,
        decreases h - i,
    {
        let mut j: usize = 0;
        let mut same = true;
        while j < n
            invariant
                n == needle@.len(),
                h == hay@.len(),
                i + n <= h,
                j <= n,
                same == (forall|m: int| 0 <= m < j ==> hay@[i + m] == needle@[m]),
            decreases n - j,
        {
            if hay[i + j] != needle[j] {
                same = false;
            }
            j = j + 1;
        }
        if same {
            assert(hay@.subrange(i as int, i + n) =~= needle@);
            return true;
        }
        assert(hay@.subrange(i as int, i + n)[0] == hay@[i as int]);
        assert(hay@.subrange(i as int, i + n) != needle@) by {
            let m = choose|m: int| 0 <= m < n && hay@[i + m] != needle@[m];
            assert(hay@.subrange(i as int, i + n)[m] == hay@[i + m]);
        }
        i = i + 1;
    }
    false
}

/// Lower-case name fragments of virtual loopback devices.
pub open spec fn virtual_markers() -> Seq<Seq<char>> {
    seq![
        seq!['b', 'l', 'a', 'c', 'k', 'h', 'o', 'l', 'e'],
        seq!['s', 'o', 'u', 'n', 'd', 'f', 'l', 'o', 'w', 'e', 'r'],
        seq!['l', 'o', 'o', 'p', 'b', 'a', 'c', 'k'],
    ]
}

/// A lower-case device name names a virtual device when it holds one of the
/// markers.
pub open spec fn virtual_name(lower: Seq<char>) -> bool {
    exists|k: int| 0 <= k < virtual_markers().len() && occurs_in(#[trigger] virtual_markers()[k], lower)
}

/// Whether an already lower-cased device name names a virtual device.
pub fn is_virtual_name(lower: &Vec<char>) -> (r: bool)
    ensures
        r == virtual_name(lower@),
{
    let markers: Vec<Vec<char>> = vec![
        vec!['b', 'l', 'a', 'c', 'k', 'h', 'o', 'l', 'e'],
        vec!['s', 'o', 'u', 'n', 'd', 'f', 'l', 'o', 'w', 'e', 'r'],
        vec!['l', 'o', 'o', 'p', 'b', 'a', 'c', 'k'],
    ];
    assert(markers@.len() == 3);
    assert(markers@[0]@ =~= virtual_markers()[0]);
    assert(markers@[1]@ =~= virtual_markers()[1]);
    assert(markers@[2]@ =~= virtual_markers()[2]);
    let mut k: usize = 0;
    while k < markers.len()
        invariant
            markers@.len() == 3,
            forall|m: int| 0 <= m < 3 ==> #[trigger] markers@[m]@ == virtual_markers()[m],
            k <= 3,
            forall|m: int| 0 <= m < k ==> !occurs_in(#[trigger] virtual_markers()[m], lower@),
        decreases 3 - k,
    {
        if contains_chars(lower, &markers[k]) {
            return true;
        }
        k = k + 1;
    }
    false
}

/// Whether a device name names a virtual loopback device (BlackHole,
/// Soundflower, Loopback), whatever its case.
pub fn is_virtual_device(name: &str) -> (r: bool)
    ensures
        r == virtual_name(lower_of(name@)),
{
    let lower = lowercase_chars(name);
    is_virtual_name(&lower)
}

/// Whether `name` holds `query`, ignoring case: how devices are picked by name.
pub fn name_matches(query: &str, name: &str) -> (r: bool)
    ensures
        r == occurs_in(lower_of(query@), lower_of(name@)),
{
    let q = lowercase_chars(query);
    let n = lowercase_chars(name);
    contains_chars(&n, &q)
}

} // verus!
