//! Decisions of the storage layer: the layout of the article database,
//! whether an object store still has to be created, and how a list of
//! decoded records is gathered.

use vstd::prelude::*;
use vstd::string::*;
use crate::text::joined;

verus! {

/// Name of the browser database.
pub const DB_NAME: &'static str = "ReadingApp";

/// Schema version of the browser database.
pub const DB_VERSION: u32 = 1;

/// Object store holding the articles.
pub const ARTICLES_STORE: &'static str = "articles";

/// Object store holding the settings record.
pub const SETTINGS_STORE: &'static str = "settings";

/// Key path of both object stores.
pub const PRIMARY_KEY: &'static str = "id";

/// Key of the settings record.
pub const DEFAULT_SETTINGS_ID: &'static str = "default";

/// Whether an object store named `store_name` still has to be created,
/// given the names of the stores that exist: exactly when none of them is
/// that name.
pub fn needs_object_store(existing: &Vec<String>, store_name: &str) -> (r: bool)
    ensures
        r == !(exists|i: int| 0 <= i < existing@.len() && #[trigger] existing@[i]@ == store_name@),
{
    let wanted = String::from_str(store_name);
    let n = existing.len();
    let mut i: usize = 0;
    while i < n
        invariant
            n == existing@.len(),
            i <= n,
            wanted@ == store_name@,
            forall|j: int| 0 <= j < i ==> #[trigger] existing@[j]@ != store_name@,
        decreases n - i,
    {
        if existing[i] == wanted {
            return false;
        }
        i = i + 1;
    }
    true
}

/// Whether every entry of `s` is a success.
pub open spec fn all_ok<T>(s: Seq<Result<T, String>>) -> bool {
    forall|i: int| 0 <= i < s.len() ==> #[trigger] s[i] is Ok
}

/// `k` is the position of the first failed entry of `s`.
pub open spec fn is_first_error<T>(s: Seq<Result<T, String>>, k: int) -> bool {
    &&& 0 <= k < s.len()
    &&& s[k] is Err
    &&& forall|j: int| 0 <= j < k ==> #[trigger] s[j] is Ok
}

/// The values of the successful entries of `s`, in order.
pub open spec fn ok_values<T>(s: Seq<Result<T, String>>) -> Seq<T> {
    s.map_values(|r: Result<T, String>| r->Ok_0)
}

/// Gathers decoded entries: all values in order when every entry decoded,
/// else the first failure, prefixed with `label` and ": ".
pub fn collect_results<T>(entries: Vec<Result<T, String>>, label: &str) -> (r: Result<
    Vec<T>,
    String,
>)
    ensures
        r is Ok <==> all_ok(entries@),
        r matches Ok(v) ==> v@ == ok_values(entries@),
        r matches Err(e) ==> exists|k: int|
            is_first_error(entries@, k) && e@ == label@ + ": "@ + (#[trigger] entries@[k])->Err_0@,
        r matches Ok(v) ==> v@.len() == entries@.len() && forall|i: int|
            0 <= i < entries@.len() ==> #[trigger] entries@[i] == Ok::<T, String>(v@[i]),
        r matches Err(e) ==> exists|k: int|
            {
                &&& 0 <= k < entries@.len()
                &&& forall|j: int| 0 <= j < k ==> (#[trigger] entries@[j]) is Ok
                &&& (#[trigger] entries@[k]) matches Err(x) && e@ == label@ + ": "@ + x@
            },
{
    let ghost original = entries@;
    let mut rest = entries;
    let mut values: Vec<T> = Vec::new();
    let ghost mut taken: int = 0;
    while rest.len() > 0
        invariant
            original == entries@,
            0 <= taken <= original.len(),
            rest@ == original.skip(taken),
            values@ == ok_values(original.take(taken)),
            all_ok(original.take(taken)),
        decreases rest.len(),
    {
        let entry = rest.remove(0);
        proof {
            assert(original[taken] == entry);
            assert(original.skip(taken + 1) =~= rest@);
        }
        match entry {
            Ok(v) => {
                values.push(v);
                proof {
                    assert(original.take(taken + 1) =~= original.take(taken).push(Ok(v)));
                    assert(ok_values(original.take(taken + 1)) =~= values@);
                    taken = taken + 1;
                }
            },
            Err(e) => {
                proof {
                    assert forall|j: int| 0 <= j < taken implies #[trigger] original[j] is Ok by {
                        assert(original.take(taken)[j] is Ok);
                    }
                    assert(is_first_error(original, taken));
                    assert(!all_ok(original));
                }
                let mut message = joined(label, ": ");
                message.append(e.as_str());
                return Err(message);
            },
        }
    }
    proof {
        assert(original.take(taken) =~= original);
        assert forall|i: int| 0 <= i < original.len() implies #[trigger] original[i] == Ok::<
            T,
            String,
        >(values@[i]) by {
            assert(original.take(taken)[i] is Ok);
        }
    }
    Ok(values)
}

} // verus!
