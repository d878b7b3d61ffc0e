//! Small verified helpers on strings.

use vstd::prelude::*;
use vstd::string::StringExecFns;

verus! {

/// Character-for-character equality of two string slices.
pub fn str_eq(a: &str, b: &str) -> (r: bool)
    ensures
        r == (a@ == b@),
{
    let sa: String = a.to_owned();
    let sb: String = b.to_owned();
    sa == sb
}

/// Duplicates an optional string, keeping its value.
pub fn clone_opt_string(s: &Option<String>) -> (r: Option<String>)
    ensures
        r == *s,
{
    match s {
        Some(x) => Some(x.clone()),
        None => None,
    }
}

/// The joining of several pieces with a separator between consecutive pieces.
pub open spec fn spec_join(items: Seq<Seq<char>>, sep: Seq<char>) -> Seq<char>
    decreases items.len(),
{
    if items.len() == 0 {
        Seq::empty()
    } else if items.len() == 1 {
        items[0]
    } else {
        spec_join(items.drop_last(), sep) + sep + items.last()
    }
}

/// Joins rendered grants with a comma and a space into one directive string;
/// an empty list yields no directive at all.
pub fn join_grants(items: &Vec<String>) -> (r: Option<String>)
    ensures
        items@.len() == 0 ==> r is None,
        items@.len() > 0 ==> (r matches Some(s) && s@ == spec_join(items.deep_view(), ", "@)),
{
    if items.len() == 0 {
        return None;
    }
    let mut out: String = items[0].clone();
    let mut i: usize = 1;
    proof {
        assert(items.deep_view().subrange(0, 1)[0] == items.deep_view()[0]);
        assert(out@ == spec_join(items.deep_view().subrange(0, 1), ", "@));
    }
    while i < items.len()
        invariant
            1 <= i <= items@.len(),
            items@.len() == items.deep_view().len(),
            out@ == spec_join(items.deep_view().subrange(0, i as int), ", "@),
        decreases items@.len() - i,
    {
        let ghost dv = items.deep_view();
        out.append(", ");
        out.append(items[i].as_str());
        proof {
            assert(dv.subrange(0, i + 1).drop_last() =~= dv.subrange(0, i as int));
            assert(dv.subrange(0, i + 1).last() == dv[i as int]);
        }
        i = i + 1;
    }
    proof {
        assert(items.deep_view().subrange(0, items.deep_view().len() as int) =~= items.deep_view());
    }
    Some(out)
}

/// Builds the copy-source path: the bucket name, one slash, the source key.
pub fn copy_source_path(bucket: &str, key: &str) -> (r: String)
    ensures
        r@ == bucket@ + "/"@ + key@,
{
    let mut out: String = bucket.to_owned();
    out.append("/");
    out.append(key);
    out
}

} // verus!
