//! The compute half of bulk URL fetching: a collaborator gathers one
//! response per input position, possibly out of order, and this module
//! reassembles them in original order into a variable-length byte array
//! with one slot per input, null where the input was null or the fetch
//! failed.

use vstd::prelude::*;
use crate::binary_array::BinaryArray;
use crate::error::DaftError;
use crate::utf8_array::Utf8Array;

verus! {

/// One gathered response: the input position it answers, and its payload —
/// `None` where the input itself was null, otherwise the fetched bytes or
/// the fetch failure's message.
pub struct UrlFetchResult {
    /// The input position this response answers.
    pub index: usize,
    /// `None` for a null input; otherwise the fetched bytes or a failure.
    pub payload: Option<Result<Vec<u8>, String>>,
}

/// The bytes a response contributes to the output: its payload's bytes, or
/// nothing for a null input or a failed fetch.
pub open spec fn payload_bytes(r: UrlFetchResult) -> Option<Seq<u8>> {
    match r.payload {
        Some(p) => match p {
            Ok(b) => Some(b@),
            Err(m) => None,
        },
        None => None,
    }
}

/// A placement slot as mathematical values: filled or not, and with what.
spec fn slot_view(s: Option<Option<Vec<u8>>>) -> Option<Option<Seq<u8>>> {
    match s {
        Some(o) => Some(
            match o {
                Some(v) => Some(v@),
                None => None,
            },
        ),
        None => None,
    }
}

/// Whether some response answers position `k`.
pub open spec fn position_answered(results: Seq<UrlFetchResult>, k: int) -> bool {
    exists|j: int| 0 <= j < results.len() && (#[trigger] results[j].index) == k
}

/// Whether a gathered batch answers positions `0 .. n` exactly once each.
pub open spec fn results_cover(results: Seq<UrlFetchResult>, n: nat) -> bool {
    &&& results.len() == n
    &&& forall|j: int| 0 <= j < results.len() ==> (#[trigger] results[j].index) < n
    &&& forall|k: int| 0 <= k < n ==> #[trigger] position_answered(results, k)
    &&& forall|j1: int, j2: int|
        0 <= j1 < j2 < results.len() ==> results[j1].index != results[j2].index
}

/// Whether some response reports a failed fetch.
pub open spec fn some_fetch_failed(results: Seq<UrlFetchResult>) -> bool {
    exists|j: int|
        0 <= j < results.len() && ((#[trigger] results[j].payload) matches Some(p) && p is Err)
}

/// The output element at position `k`: the bytes of the response answering
/// `k`, or `None` for a null input or a failed fetch.
pub open spec fn expected_bytes(results: Seq<UrlFetchResult>, k: int) -> Option<Seq<u8>> {
    let j = choose|j: int| 0 <= j < results.len() && (#[trigger] results[j].index) == k;
    payload_bytes(results[j])
}

/// How many bytes position `k` contributes to the output buffer.
pub open spec fn slot_bytes_len(results: Seq<UrlFetchResult>, k: int) -> int {
    match expected_bytes(results, k) {
        Some(b) => b.len() as int,
        None => 0,
    }
}

/// The bytes contributed by positions `0 .. k` together.
pub open spec fn total_bytes_upto(results: Seq<UrlFetchResult>, k: int) -> int
    decreases k,
{
    if k <= 0 {
        0
    } else {
        total_bytes_upto(results, k - 1) + slot_bytes_len(results, k - 1)
    }
}

/// Byte totals grow with the position range.
proof fn lemma_total_bytes_mono(results: Seq<UrlFetchResult>, a: int, b: int)
    requires
        0 <= a <= b,
    ensures
        total_bytes_upto(results, a) <= total_bytes_upto(results, b),
    decreases b - a,
{
    if a < b {
        lemma_total_bytes_mono(results, a, b - 1);
    }
}

/// Copies a byte buffer.
fn copy_bytes(b: &Vec<u8>) -> (r: Vec<u8>)
    ensures
        r@ == b@,
{
    let mut out: Vec<u8> = Vec::with_capacity(b.len());
    let mut t: usize = 0;
    while t < b.len()
        invariant
            t <= b@.len(),
            out@ =~= b@.subrange(0, t as int),
        decreases b@.len() - t,
    {
        out.push(*b.get(t).unwrap());
        t = t + 1;
        assert(out@ =~= b@.subrange(0, t as int));
    }
    assert(out@ =~= b@);
    out
}

/// Reassembles gathered responses into one byte array named `name`, in
/// input order: one slot per input position, holding the fetched bytes, or
/// null for a null input or — when failures are not raised — a failed
/// fetch.  Rejects a zero connection budget; raises the first failure
/// found when asked to.
#[verifier::rlimit(100)]
pub fn url_download(
    name: &str,
    urls: &Vec<Option<String>>,
    max_connections: usize,
    raise_error_on_failure: bool,
    results: Vec<UrlFetchResult>,
) -> (r: Result<BinaryArray, DaftError>)
    requires
        results_cover(results@, urls@.len()),
        forall|j: int|
            0 <= j < results@.len() ==> ((#[trigger] results@[j].payload) is None <==> urls@[
                results@[j].index as int
            ] is None),
        total_bytes_upto(results@, urls@.len() as int) <= i64::MAX,
    ensures
        r is Ok <==> (max_connections != 0 && !(raise_error_on_failure && some_fetch_failed(
            results@,
        ))),
        max_connections == 0 ==> (r matches Err(e) && e is ValueError),
        (max_connections != 0 && raise_error_on_failure && some_fetch_failed(results@)) ==> (
        r matches Err(e) && e is IoError),
        r matches Ok(b) ==> {
            &&& b.wf()
            &&& b@.len() == urls@.len()
            &&& b.field.name@ == name@
            &&& forall|k: int| 0 <= k < urls@.len() ==> #[trigger] b@[k] == expected_bytes(
                results@,
                k,
            )
            &&& forall|k: int|
                0 <= k < urls@.len() && urls@[k] is None ==> #[trigger] b@[k] is None
        },
{
    let n: usize = urls.len();
    if max_connections == 0 {
        return Err(
            DaftError::ValueError(
                String::from_str("max_connections for url_download must be non-zero"),
            ),
        );
    }
    if raise_error_on_failure {
        let mut j: usize = 0;
        while j < results.len()
            invariant
                j <= results@.len(),
                max_connections != 0,
                raise_error_on_failure,
                forall|j2: int|
                    0 <= j2 < j ==> !((#[trigger] results@[j2].payload) matches Some(p) && p
                        is Err),
            decreases results@.len() - j,
        {
            match &results.get(j).unwrap().payload {
                Some(Err(m)) => {
                    proof {
                        assert(0 <= j < results@.len() && ((#[trigger] results@[
                            j as int
                        ].payload) matches Some(p) && p is Err));
                        assert(some_fetch_failed(results@));
                    }
                    return Err(DaftError::IoError(m.clone()));
                },
                _ => {},
            }
            j = j + 1;
        }
        assert(!some_fetch_failed(results@));
    }
    // Place each response at the position it answers.
    let mut slots: Vec<Option<Option<Vec<u8>>>> = Vec::with_capacity(n);
    let mut k: usize = 0;
    while k < n
        invariant
            k <= n,
            slots@.len() == k as nat,
            forall|k2: int| 0 <= k2 < k ==> (#[trigger] slots@[k2]) is None,
        decreases n - k,
    {
        slots.push(None);
        k = k + 1;
    }
    let mut j: usize = 0;
    while j < results.len()
        invariant
            j <= results@.len(),
            results_cover(results@, urls@.len()),
            n == urls@.len(),
            slots@.len() == n as nat,
            forall|j2: int|
                0 <= j2 < j ==> slot_view(#[trigger] slots@[results@[j2].index as int]) == Some(
                    payload_bytes(results@[j2]),
                ),
        decreases results@.len() - j,
    {
        let res = results.get(j).unwrap();
        let bytes: Option<Vec<u8>> = match &res.payload {
            Some(Ok(b)) => Some(copy_bytes(b)),
            Some(Err(m)) => None,
            None => None,
        };
        let idx: usize = res.index;
        slots.set(idx, Some(bytes));
        proof {
            assert forall|j2: int|
                0 <= j2 < j + 1 implies slot_view(#[trigger] slots@[results@[j2].index as int])
                == Some(payload_bytes(results@[j2])) by {
                if j2 < j {
                    assert(results@[j2].index != results@[j as int].index);
                }
            }
        }
        j = j + 1;
    }
    proof {
        assert forall|k2: int| 0 <= k2 < n implies slot_view(#[trigger] slots@[k2]) == Some(
            expected_bytes(results@, k2),
        ) by {
            assert(position_answered(results@, k2));
            let j0 = choose|j0: int|
                0 <= j0 < results@.len() && (#[trigger] results@[j0].index) == k2;
            assert(slot_view(slots@[results@[j0].index as int]) == Some(
                payload_bytes(results@[j0]),
            ));
        }
    }
    // Concatenate the bytes in input order, recording offsets and validity.
    let mut data: Vec<u8> = Vec::new();
    let mut offsets: Vec<i64> = Vec::with_capacity(n);
    let mut validity: Vec<bool> = Vec::with_capacity(n);
    offsets.push(0);
    let mut k: usize = 0;
    while k < n
        invariant
            k <= n,
            n == urls@.len(),
            slots@.len() == n as nat,
            forall|k2: int|
                0 <= k2 < n ==> slot_view(#[trigger] slots@[k2]) == Some(
                    expected_bytes(results@, k2),
                ),
            total_bytes_upto(results@, n as int) <= i64::MAX,
            offsets@.len() == k + 1,
            validity@.len() == k as nat,
            offsets@[0] == 0,
            data@.len() == total_bytes_upto(results@, k as int),
            offsets@.last() == data@.len(),
            forall|k2: int| 0 <= k2 < k + 1 ==> 0 <= #[trigger] offsets@[k2] <= data@.len(),
            forall|k2: int| 0 <= k2 < k ==> #[trigger] offsets@[k2] <= offsets@[k2 + 1],
            forall|k2: int|
                0 <= k2 < k ==> (if validity@[k2] {
                    Some(data@.subrange(offsets@[k2] as int, offsets@[k2 + 1] as int))
                } else {
                    None
                }) == expected_bytes(results@, k2),
        decreases n - k,
    {
        proof {
            lemma_total_bytes_mono(results@, k as int + 1, n as int);
        }
        let slot = slots.get(k).unwrap();
        match slot {
            Some(Some(b)) => {
                let ghost data_prev = data@;
                let mut t: usize = 0;
                while t < b.len()
                    invariant
                        t <= b@.len(),
                        data@ =~= data_prev + b@.subrange(0, t as int),
                    decreases b@.len() - t,
                {
                    data.push(*b.get(t).unwrap());
                    t = t + 1;
                    assert(data@ =~= data_prev + b@.subrange(0, t as int));
                }
                assert(data@ =~= data_prev + b@);
                offsets.push(data.len() as i64);
                validity.push(true);
                proof {
                    assert(data@.subrange(
                        offsets@[k as int] as int,
                        offsets@[k as int + 1] as int,
                    ) =~= b@);
                }
            },
            Some(None) => {
                offsets.push(data.len() as i64);
                validity.push(false);
            },
            None => {
                // Every slot was filled above.
                proof {
                    assert(false);
                }
                offsets.push(data.len() as i64);
                validity.push(false);
            },
        }
        k = k + 1;
    }
    let arr = match BinaryArray::try_new(name, data, offsets) {
        Ok(a) => a,
        Err(e) => {
            return Err(e);
        },
    };
    let out = match arr.with_validity(validity) {
        Ok(a) => a,
        Err(e) => {
            return Err(e);
        },
    };
    proof {
        assert(forall|k2: int|
            0 <= k2 < urls@.len() ==> #[trigger] out@[k2] == expected_bytes(results@, k2));
        assert forall|k2: int|
            0 <= k2 < urls@.len() && urls@[k2] is None implies #[trigger] out@[k2] is None by {
            assert(position_answered(results@, k2));
            let j0 = choose|j0: int|
                0 <= j0 < results@.len() && (#[trigger] results@[j0].index) == k2;
            assert(results@[j0].payload is None <==> urls@[results@[j0].index as int] is None);
        }
    }
    Ok(out)
}

impl Utf8Array {
    /// Reassembles gathered responses for this column's URLs into one byte
    /// array bearing this column's name; see the free `url_download`.
    pub fn url_download(
        &self,
        max_connections: usize,
        raise_error_on_failure: bool,
        results: Vec<UrlFetchResult>,
    ) -> (r: Result<BinaryArray, DaftError>)
        requires
            self.wf(),
            results_cover(results@, self@.len()),
            forall|j: int|
                0 <= j < results@.len() ==> ((#[trigger] results@[j].payload) is None <==> self@[
                    results@[j].index as int
                ] is None),
            total_bytes_upto(results@, self@.len() as int) <= i64::MAX,
        ensures
            r is Ok <==> (max_connections != 0 && !(raise_error_on_failure && some_fetch_failed(
                results@,
            ))),
            max_connections == 0 ==> (r matches Err(e) && e is ValueError),
            (max_connections != 0 && raise_error_on_failure && some_fetch_failed(results@)) ==> (
            r matches Err(e) && e is IoError),
            r matches Ok(b) ==> {
                &&& b.wf()
                &&& b@.len() == self@.len()
                &&& b.field.name@ == self.field.name@
                &&& forall|k: int| 0 <= k < self@.len() ==> #[trigger] b@[k] == expected_bytes(
                    results@,
                    k,
                )
                &&& forall|k: int|
                    0 <= k < self@.len() && self@[k] is None ==> #[trigger] b@[k] is None
            },
    {
        let n = self.len();
        let mut urls: Vec<Option<String>> = Vec::with_capacity(n);
        let mut i: usize = 0;
        while i < n
            invariant
                i <= n,
                self.wf(),
                n == self@.len(),
                urls@.len() == i as nat,
                forall|k: int| 0 <= k < i ==> ((#[trigger] urls@[k]) is None <==> self@[k] is None),
            decreases n - i,
        {
            urls.push(self.get(i));
            i = i + 1;
        }
        url_download(
            self.name().as_str(),
            &urls,
            max_connections,
            raise_error_on_failure,
            results,
        )
    }
}

} // verus!
