//! Where leading and trailing silence is cut from a recording.
//!
//! The recording is scanned in windows of 480 samples, 240 apart: from the
//! front for the first loud window, which starts the kept range, and from the
//! back for the first loud window, which ends it; where only one scan finds
//! a loud window, the other end stays at the start or the end of the
//! recording. A recording with no loud window in either scan is silence
//! throughout and nothing of it is kept. Whether a window
//! is loud is a measurement on the samples, made by the caller for each
//! window listed here; this module places the windows and picks the range.
use vstd::prelude::*;

verus! {

/// Samples in one window.
pub const TRIM_WINDOW: usize = 480;

/// Samples between the starts of two neighbouring windows.
pub const TRIM_STEP: usize = 240;

/// The number of windows scanned from the front of `len` samples: one at each
/// multiple of the step below `len`.
pub open spec fn forward_count(len: nat) -> nat {
    if len % 240 == 0 {
        len / 240
    } else {
        len / 240 + 1
    }
}

/// The `k`-th window from the front, as a half-open range: it starts at
/// `240 * k` and ends 480 samples later or at the end.
pub open spec fn forward_window(len: nat, k: nat) -> (usize, usize) {
    let i = 240 * k;
    ((i as usize), (if i + 480 <= len { i + 480 } else { len }) as usize)
}

/// The number of windows scanned from the back of `len` samples: one at each
/// sample `len - 1 - 240 * k` that exists.
pub open spec fn backward_count(len: nat) -> nat {
    if len == 0 {
        0
    } else {
        ((len - 1) as nat) / 240 + 1
    }
}

/// The `k`-th window from the back, as a half-open range: it ends after
/// sample `i = len - 1 - 240 * k` and starts 480 samples before `i`, or at 0.
pub open spec fn backward_window(len: nat, k: nat) -> (usize, usize) {
    let i = len - 1 - 240 * k;
    ((if i >= 480 { i - 480 } else { 0 }) as usize, (i + 1) as usize)
}

/// `k` is the first position at which `s` holds `true`.
pub open spec fn is_first_true(s: Seq<bool>, k: int) -> bool {
    0 <= k < s.len() && s[k] && forall|j: int| 0 <= j < k ==> !s[j]
}

/// Some window is loud.
pub open spec fn any_loud(loud: Seq<bool>) -> bool {
    exists|k: int| is_first_true(loud, k)
}

/// The start of the kept range: that of the first loud front window, or 0
/// where no front window is loud.
pub open spec fn trim_start(loud_front: Seq<bool>) -> int {
    if any_loud(loud_front) {
        240 * (choose|k: int| is_first_true(loud_front, k))
    } else {
        0
    }
}

/// The end of the kept range: that of the first loud back window, or `len`
/// where no back window is loud.
pub open spec fn trim_end(len: nat, loud_back: Seq<bool>) -> int {
    if any_loud(loud_back) {
        len - 240 * (choose|k: int| is_first_true(loud_back, k))
    } else {
        len as int
    }
}

/// The kept range of `len` samples, given which windows are loud: from the
/// start of the first loud front window (or 0) to the end of the first loud
/// back window (or `len`). `None` where nothing is kept: no window of either
/// scan is loud (the recording is silence), or the range is empty.
pub open spec fn spec_trim_range(len: nat, loud_front: Seq<bool>, loud_back: Seq<bool>) -> Option<
    (usize, usize),
> {
    if (any_loud(loud_front) || any_loud(loud_back)) && trim_start(loud_front) < trim_end(
        len,
        loud_back,
    ) {
        Some((trim_start(loud_front) as usize, trim_end(len, loud_back) as usize))
    } else {
        None
    }
}

/// The first position is unique.
proof fn lemma_first_true_unique(s: Seq<bool>, k: int)
    requires
        is_first_true(s, k),
    ensures
        (choose|j: int| is_first_true(s, j)) == k,
{
    let j = choose|j: int| is_first_true(s, j);
    assert(is_first_true(s, j));
    if j < k {
        assert(!s[j]);
    } else if k < j {
        assert(!s[k]);
    }
}

/// The windows scanned from the front of `len` samples, in scan order.
pub fn forward_windows(len: usize) -> (r: Vec<(usize, usize)>)
    ensures
        r@.len() == forward_count(len as nat),
        forall|k: int| 0 <= k < r@.len() ==> #[trigger] r@[k] == forward_window(len as nat, k as nat),
{
    let n: usize = if len % 240 == 0 {
        len / 240
    } else {
        len / 240 + 1
    };
    let mut r: Vec<(usize, usize)> = Vec::new();
    let mut k: usize = 0;
    while k < n
        invariant
            n == forward_count(len as nat),
            k <= n,
            r@.len() == k,
            forall|j: int| 0 <= j < k ==> #[trigger] r@[j] == forward_window(len as nat, j as nat),
        decreases n - k,
    {
        assert(240 * k < len) by (nonlinear_arith)
            requires
                k < n,
                n == forward_count(len as nat),
        ;
        let i: usize = 240 * k;
        let end: usize = if len - i < 480 {
            len
        } else {
            i + 480
        };
        r.push((i, end));
        k = k + 1;
    }
    r
}

/// The windows scanned from the back of `len` samples, in scan order.
pub fn backward_windows(len: usize) -> (r: Vec<(usize, usize)>)
    ensures
        r@.len() == backward_count(len as nat),
        forall|k: int| 0 <= k < r@.len() ==> #[trigger] r@[k] == backward_window(len as nat, k as nat),
{
    let n: usize = if len == 0 {
        0
    } else {
        (len - 1) / 240 + 1
    };
    let mut r: Vec<(usize, usize)> = Vec::new();
    let mut k: usize = 0;
    while k < n
        invariant
            n == backward_count(len as nat),
            k <= n,
            r@.len() == k,
            forall|j: int| 0 <= j < k ==> #[trigger] r@[j] == backward_window(len as nat, j as nat),
        decreases n - k,
    {
        assert(240 * k <= len - 1) by (nonlinear_arith)
            requires
                k < n,
                len > 0,
                n == (len - 1) / 240 + 1,
        ;
        let i: usize = len - 1 - 240 * k;
        let start: usize = if i >= 480 {
            i - 480
        } else {
            0
        };
        r.push((start, i + 1));
        k = k + 1;
    }
    r
}

/// The position of the first `true` in `s`, where there is one.
fn first_true(s: &Vec<bool>) -> (r: Option<usize>)
    ensures
        match r {
            Some(k) => is_first_true(s@, k as int),
            None => !exists|k: int| is_first_true(s@, k),
        },
{
    let mut i: usize = 0;
    while i < s.len()
        invariant
            i <= s.len(),
            forall|j: int| 0 <= j < i ==> !s@[j],
        decreases s.len() - i,
    {
        if s[i] {
            return Some(i);
        }
        i = i + 1;
    }
    assert forall|k: int| !is_first_true(s@, k) by {
        if 0 <= k < s@.len() {
            assert(!s@[k]);
        }
    }
    None
}

/// The range of `len` samples kept after cutting silence from both ends,
/// given for each front window and each back window whether it is loud;
/// `None` where nothing is kept, as for a recording that is silent throughout.
pub fn trim_range(len: usize, loud_front: &Vec<bool>, loud_back: &Vec<bool>) -> (r: Option<
    (usize, usize),
>)
    requires
        loud_front@.len() == forward_count(len as nat),
        loud_back@.len() == backward_count(len as nat),
    ensures
        r == spec_trim_range(len as nat, loud_front@, loud_back@),
        r matches Some((s, e)) ==> s < e <= len,
        (forall|k: int| 0 <= k < loud_front@.len() ==> !loud_front@[k]) && (forall|k: int|
            0 <= k < loud_back@.len() ==> !loud_back@[k]) ==> r is None,
{
    let front = first_true(loud_front);
    let back = first_true(loud_back);
    if front.is_none() && back.is_none() {
        return None;
    }
    let start: usize = match front {
        Some(k) => {
            proof {
                lemma_first_true_unique(loud_front@, k as int);
            }
            assert(240 * k < len) by (nonlinear_arith)
                requires
                    k < loud_front@.len(),
                    loud_front@.len() == forward_count(len as nat),
            ;
            240 * k
        },
        None => 0,
    };
    let end: usize = match back {
        Some(k) => {
            proof {
                lemma_first_true_unique(loud_back@, k as int);
            }
            assert(240 * k <= len - 1) by (nonlinear_arith)
                requires
                    k < loud_back@.len(),
                    len > 0,
                    loud_back@.len() == (len - 1) / 240 + 1,
            ;
            len - 240 * k
        },
        None => len,
    };
    if start < end {
        Some((start, end))
    } else {
        None
    }
}

/// The front windows start at 0 and 240 apart; each holds 480 samples or
/// runs to the end; the last one starts less than one step before the end.
pub proof fn lemma_forward_windows_tile(len: nat)
    requires
        len <= usize::MAX,
    ensures
        forall|k: nat| #![trigger forward_window(len, k)]
            k < forward_count(len) ==> {
                let w = forward_window(len, k);
                &&& w.0 == 240 * k
                &&& w.0 < w.1 <= len
                &&& (w.1 == w.0 + 480 || w.1 == len)
                &&& w.1 <= w.0 + 480
            },
        len > 0 ==> forward_count(len) > 0 && 240 * (forward_count(len) - 1) < len <= 240
            * forward_count(len),
        len == 0 ==> forward_count(len) == 0,
{
    let n = forward_count(len);
    assert(len > 0 ==> n > 0 && 240 * (n - 1) < len <= 240 * n) by (nonlinear_arith)
        requires
            n == (if len % 240 == 0 { len / 240 } else { len / 240 + 1 }),
    ;
    assert forall|k: nat| #![trigger forward_window(len, k)] k < n implies {
        let w = forward_window(len, k);
        &&& w.0 == 240 * k
        &&& w.0 < w.1 <= len
        &&& (w.1 == w.0 + 480 || w.1 == len)
        &&& w.1 <= w.0 + 480
    } by {
        assert(240 * k < len) by (nonlinear_arith)
            requires
                k < n,
                len > 0 ==> 240 * (n - 1) < len,
                len == 0 ==> n == 0,
        ;
    }
}

/// The back windows end at the end and 240 apart; each starts 481 samples
/// before its end, or at 0; the last one ends within the first step.
pub proof fn lemma_backward_windows_tile(len: nat)
    requires
        len <= usize::MAX,
    ensures
        forall|k: nat| #![trigger backward_window(len, k)]
            k < backward_count(len) ==> {
                let w = backward_window(len, k);
                &&& w.1 == len - 240 * k
                &&& w.0 < w.1 <= len
                &&& (w.0 + 481 == w.1 || w.0 == 0)
                &&& w.0 + 481 >= w.1
            },
        len > 0 ==> backward_count(len) > 0 && 0 < len - 240 * (backward_count(len) - 1) <= 240,
        len == 0 ==> backward_count(len) == 0,
{
    let n = backward_count(len);
    assert(len > 0 ==> n > 0 && 0 < len - 240 * (n - 1) <= 240) by (nonlinear_arith)
        requires
            n == (if len == 0 { 0 } else { ((len - 1) as nat) / 240 + 1 }),
    ;
    assert forall|k: nat| #![trigger backward_window(len, k)] k < n implies {
        let w = backward_window(len, k);
        &&& w.1 == len - 240 * k
        &&& w.0 < w.1 <= len
        &&& (w.0 + 481 == w.1 || w.0 == 0)
        &&& w.0 + 481 >= w.1
    } by {
        assert(240 * k <= len - 1) by (nonlinear_arith)
            requires
                k < n,
                len > 0 ==> 0 < len - 240 * (n - 1),
                len == 0 ==> n == 0,
        ;
    }
}

/// `k` is the first loud window.
pub open spec fn first_loud_at(loud: Seq<bool>, k: int) -> bool {
    0 <= k < loud.len() && loud[k] && forall|j: int| 0 <= j < k ==> !loud[j]
}

/// No window is loud.
pub open spec fn all_quiet(loud: Seq<bool>) -> bool {
    forall|j: int| 0 <= j < loud.len() ==> !loud[j]
}

/// The kept range runs from the start of the first loud front window (or 0
/// where none is loud) to the end of the first loud back window (or the end
/// where none is loud), and nothing is kept where no window of either scan
/// is loud or that range is empty.
pub proof fn lemma_trim_range_between_first_loud(
    len: nat,
    loud_front: Seq<bool>,
    loud_back: Seq<bool>,
    kf: int,
    kb: int,
)
    ensures
        first_loud_at(loud_front, kf) && first_loud_at(loud_back, kb) ==> spec_trim_range(
            len,
            loud_front,
            loud_back,
        ) == (if 240 * kf < len - 240 * kb {
            Some(((240 * kf) as usize, (len - 240 * kb) as usize))
        } else {
            None
        }),
        first_loud_at(loud_front, kf) && all_quiet(loud_back) ==> spec_trim_range(
            len,
            loud_front,
            loud_back,
        ) == (if 240 * kf < len {
            Some(((240 * kf) as usize, len as usize))
        } else {
            None
        }),
        all_quiet(loud_front) && first_loud_at(loud_back, kb) ==> spec_trim_range(
            len,
            loud_front,
            loud_back,
        ) == (if 0 < len - 240 * kb {
            Some((0usize, (len - 240 * kb) as usize))
        } else {
            None
        }),
        all_quiet(loud_front) && all_quiet(loud_back) ==> spec_trim_range(
            len,
            loud_front,
            loud_back,
        ) is None,
{
    if first_loud_at(loud_front, kf) {
        lemma_first_true_unique(loud_front, kf);
        assert(is_first_true(loud_front, kf));
        assert(any_loud(loud_front));
        assert(trim_start(loud_front) == 240 * kf);
    }
    if first_loud_at(loud_back, kb) {
        lemma_first_true_unique(loud_back, kb);
        assert(is_first_true(loud_back, kb));
        assert(any_loud(loud_back));
        assert(trim_end(len, loud_back) == len - 240 * kb);
    }
    if all_quiet(loud_front) {
        assert forall|k: int| !is_first_true(loud_front, k) by {
            if 0 <= k < loud_front.len() {
                assert(!loud_front[k]);
            }
        }
    }
    if all_quiet(loud_back) {
        assert forall|k: int| !is_first_true(loud_back, k) by {
            if 0 <= k < loud_back.len() {
                assert(!loud_back[k]);
            }
        }
    }
}

} // verus!
