//! Locale-aware, numeric-aware deterministic ordering of profile names.
//!
//! The comparison itself comes from `icu_collator`, configured once with the
//! root locale and numeric ordering enabled, so that names with numeric
//! suffixes sort by numeric value ("p2" before "p10"). The sorting around the
//! comparison is verified: the result is a rearrangement of the readable
//! input names in which no adjacent pair is out of collation order.
use vstd::prelude::*;
use core::cmp::Ordering;
use crate::error::Error;
use crate::views_of;

verus! {

#[verifier::external_type_specification]
#[verifier::external_body]
pub struct ExCollatorBorrowed<'a>(icu_collator::CollatorBorrowed<'a>);

#[verifier::external_type_specification]
#[verifier::external_body]
pub struct ExDataError(icu_provider::DataError);

/// The collation engine in the one configuration this library uses: the
/// default (root) locale with numeric ordering enabled. Its only constructor
/// is [`make_collator`], so every value of this type compares identically.
pub struct ProfileCollator {
    collator: icu_collator::CollatorBorrowed<'static>,
}

/// What the collation engine returns when comparing two strings: for the
/// fixed configuration used here the result depends on the two strings alone.
pub uninterp spec fn collation_cmp(a: Seq<char>, b: Seq<char>) -> Ordering;

/// Relies on `icu_collator::Collator::try_new` with the default (root) locale
/// preferences and numeric ordering enabled; construction fails exactly when
/// the collation data cannot be loaded.
#[verifier::external_body]
fn collator_try_new() -> Result<icu_collator::CollatorBorrowed<'static>, icu_provider::DataError> {
    let mut prefs = icu_collator::CollatorPreferences::default();
    prefs.numeric_ordering = Some(icu_collator::preferences::CollationNumericOrdering::True);
    icu_collator::Collator::try_new(prefs, Default::default())
}

/// Relies on `icu_collator::CollatorBorrowed::compare`: for the fixed
/// configuration every [`ProfileCollator`] carries, the result is a function
/// of the two strings alone, and the comparison implements a total order, so
/// reversing the arguments reverses the answer.
#[verifier::external_body]
fn collator_compare(collator: &ProfileCollator, a: &str, b: &str) -> (r: Ordering)
    ensures
        r == collation_cmp(a@, b@),
        r == Ordering::Greater ==> collation_cmp(b@, a@) == Ordering::Less,
        r == Ordering::Less ==> collation_cmp(b@, a@) == Ordering::Greater,
        r == Ordering::Equal ==> collation_cmp(b@, a@) == Ordering::Equal,
{
    collator.collator.compare(a, b)
}

/// Builds the collation engine used for every ordering in one run.
///
/// It is constructed once at process start and passed to the functions that
/// need it; construction failure is the fatal `LocaleDataUnavailable` error.
pub fn make_collator() -> (r: Result<ProfileCollator, Error>)
    ensures
        r matches Err(e) ==> e == Error::LocaleDataUnavailable,
{
    match collator_try_new() {
        Ok(c) => Ok(ProfileCollator { collator: c }),
        Err(_) => Err(Error::LocaleDataUnavailable),
    }
}

/// No adjacent pair of names is out of collation order.
pub open spec fn sorted_by_collation(s: Seq<Seq<char>>) -> bool {
    forall|i: int|
        0 <= i < s.len() - 1 ==> #[trigger] collation_cmp(s[i], s[i + 1]) != Ordering::Greater
}

/// The names of the directory entries that could be read, in directory order.
pub open spec fn present_names(entries: Seq<Option<String>>) -> Seq<String>
    decreases entries.len(),
{
    if entries.len() == 0 {
        Seq::empty()
    } else {
        present_names(entries.drop_last()) + match entries.last() {
            Some(n) => seq![n],
            None => Seq::empty(),
        }
    }
}

/// Keeps the names of the entries that could be read, silently dropping the
/// unreadable ones, in their original order.
pub fn readable_names(entries: &Vec<Option<String>>) -> (r: Vec<String>)
    ensures
        r@ == present_names(entries@),
{
    let mut out: Vec<String> = Vec::new();
    let mut i: usize = 0;
    while i < entries.len()
        invariant
            i <= entries@.len(),
            out@ == present_names(entries@.take(i as int)),
        decreases entries@.len() - i,
    {
        proof {
            assert(entries@.take(i + 1).drop_last() =~= entries@.take(i as int));
            assert(entries@.take(i + 1).last() == entries@[i as int]);
        }
        match &entries[i] {
            Some(n) => {
                out.push(n.clone());
                proof {
                    assert(out@ =~= present_names(entries@.take(i + 1)));
                }
            },
            None => {
                proof {
                    assert(out@ =~= present_names(entries@.take(i + 1)));
                }
            },
        }
        i = i + 1;
    }
    proof {
        assert(entries@.take(entries@.len() as int) =~= entries@);
    }
    out
}

/// Sorts names into the collation order.
///
/// The result holds exactly the given names (as a multiset: duplicates are
/// kept) and no adjacent pair of it is out of collation order; since the
/// collation is a total order, that orders the whole sequence.
pub fn sort_names(collator: &ProfileCollator, names: &Vec<String>) -> (r: Vec<String>)
    ensures
        views_of(r@).to_multiset() == views_of(names@).to_multiset(),
        sorted_by_collation(views_of(r@)),
{
    broadcast use vstd::seq_lib::group_to_multiset_ensures;
    broadcast use vstd::seq_lib::to_multiset_insert;

    let mut out: Vec<String> = Vec::new();
    let mut i: usize = 0;
    while i < names.len()
        invariant
            i <= names@.len(),
            views_of(out@).to_multiset() == views_of(names@.take(i as int)).to_multiset(),
            sorted_by_collation(views_of(out@)),
        decreases names@.len() - i,
    {
        let x = names[i].clone();
        let ghost old_out = out@;
        let mut j: usize = 0;
        loop
            invariant
                i < names@.len(),
                j <= out@.len(),
                out@ == old_out,
                x@ == names@[i as int]@,
                forall|k: int|
                    0 <= k < j ==> #[trigger] collation_cmp(views_of(out@)[k], x@)
                        != Ordering::Greater,
            ensures
                j <= out@.len(),
                out@ == old_out,
                forall|k: int|
                    0 <= k < j ==> #[trigger] collation_cmp(views_of(out@)[k], x@)
                        != Ordering::Greater,
                j < out@.len() ==> collation_cmp(x@, views_of(out@)[j as int]) != Ordering::Greater,
            decreases out@.len() - j,
        {
            if j == out.len() {
                break ;
            }
            let c = collator_compare(collator, out[j].as_str(), x.as_str());
            match c {
                Ordering::Greater => {
                    break ;
                },
                _ => {
                    j = j + 1;
                },
            }
        }
        out.insert(j, x);
        proof {
            let vs = views_of(old_out);
            let vs2 = views_of(out@);
            assert(out@ == old_out.insert(j as int, x));
            old_out.insert_ensures(j as int, x);
            assert(vs2 =~= vs.insert(j as int, x@));
            vs.insert_ensures(j as int, x@);
            assert forall|m: int| 0 <= m < vs2.len() - 1 implies #[trigger] collation_cmp(
                vs2[m],
                vs2[m + 1],
            ) != Ordering::Greater by {
                if m + 1 < j {
                    assert(vs2[m] == vs[m]);
                    assert(vs2[m + 1] == vs[m + 1]);
                } else if m + 1 == j {
                    assert(vs2[m] == vs[m]);
                    assert(vs2[m + 1] == x@);
                } else if m == j {
                    assert(vs2[m] == x@);
                    assert(vs2[m + 1] == vs[m]);
                } else {
                    assert(vs2[m] == vs[m - 1]);
                    assert(vs2[m + 1] == vs[m]);
                }
            }
            vstd::seq_lib::to_multiset_insert(vs, j as int, x@);
            assert(vs2.to_multiset() == vs.to_multiset().insert(x@));
            assert(views_of(names@.take(i + 1)) =~= views_of(names@.take(i as int)).push(
                names@[i as int]@,
            ));
            vstd::seq_lib::to_multiset_build(views_of(names@.take(i as int)), names@[i as int]@);
            assert(views_of(names@.take(i as int)).push(names@[i as int]@).to_multiset()
                == views_of(names@.take(i as int)).to_multiset().insert(names@[i as int]@));
        }
        i = i + 1;
    }
    proof {
        assert(names@.take(names@.len() as int) =~= names@);
    }
    out
}

/// Keeps the readable directory entries and sorts them into collation order:
/// the order in which discovered profiles are listed and displayed.
pub fn sort_dir_results(collator: &ProfileCollator, entries: &Vec<Option<String>>) -> (r: Vec<
    String,
>)
    ensures
        views_of(r@).to_multiset() == views_of(present_names(entries@)).to_multiset(),
        sorted_by_collation(views_of(r@)),
{
    let names = readable_names(entries);
    sort_names(collator, &names)
}

} // verus!
