use vstd::prelude::*;

verus! {

/// `k` is the first position of `s` whose item satisfies `p`.
pub open spec fn first_where<T>(s: Seq<T>, p: spec_fn(T) -> bool, k: int) -> bool {
    &&& 0 <= k < s.len()
    &&& p(s[k])
    &&& forall|j: int| 0 <= j < k ==> !p(#[trigger] s[j])
}

/// No item of `s` satisfies `p`.
pub open spec fn none_where<T>(s: Seq<T>, p: spec_fn(T) -> bool) -> bool {
    forall|j: int| 0 <= j < s.len() ==> !p(#[trigger] s[j])
}

/// The connector to drive: the first one that reports a connected display.
pub fn first_connected(connected: &Vec<bool>) -> (i: Option<usize>)
    ensures
        i matches Some(k) ==> first_where(connected@, |c: bool| c, k as int),
        i is None ==> none_where(connected@, |c: bool| c),
{
    let mut k: usize = 0;
    while k < connected.len()
        invariant
            k <= connected@.len(),
            forall|j: int| 0 <= j < k ==> !#[trigger] connected@[j],
        decreases connected@.len() - k,
    {
        if connected[k] {
            return Some(k);
        }
        k = k + 1;
    }
    None
}

/// The display mode to set: the first of the connector's modes whose size is
/// the screen's.
pub fn find_mode(modes: &Vec<(u16, u16)>, size: (u16, u16)) -> (i: Option<usize>)
    ensures
        i matches Some(k) ==> first_where(modes@, |m: (u16, u16)| m == size, k as int),
        i is None ==> none_where(modes@, |m: (u16, u16)| m == size),
{
    let mut k: usize = 0;
    while k < modes.len()
        invariant
            k <= modes@.len(),
            forall|j: int| 0 <= j < k ==> #[trigger] modes@[j] != size,
        decreases modes@.len() - k,
    {
        let m = modes[k];
        if m.0 == size.0 && m.1 == size.1 {
            return Some(k);
        }
        k = k + 1;
    }
    None
}

/// The CRTC to use: the first one already showing a mode of the screen's size,
/// or else the first one; `None` when there is none. Each entry is the size of
/// the mode a CRTC shows, if any.
pub fn choose_crtc(crtc_modes: &Vec<Option<(u16, u16)>>, size: (u16, u16)) -> (i: Option<usize>)
    ensures
        i is None <==> crtc_modes@.len() == 0,
        i matches Some(k) ==> (first_where(
            crtc_modes@,
            |m: Option<(u16, u16)>| m == Some(size),
            k as int,
        ) || (k == 0 && none_where(crtc_modes@, |m: Option<(u16, u16)>| m == Some(size)))),
        crtc_modes@.len() > 0 && none_where(
            crtc_modes@,
            |m: Option<(u16, u16)>| m == Some(size),
        ) ==> i == Some(0usize),
{
    let mut k: usize = 0;
    while k < crtc_modes.len()
        invariant
            k <= crtc_modes@.len(),
            forall|j: int| 0 <= j < k ==> #[trigger] crtc_modes@[j] != Some(size),
        decreases crtc_modes@.len() - k,
    {
        match crtc_modes[k] {
            Some(m) => {
                if m.0 == size.0 && m.1 == size.1 {
                    return Some(k);
                }
            },
            None => {},
        }
        k = k + 1;
    }
    if crtc_modes.len() > 0 {
        Some(0)
    } else {
        None
    }
}

} // verus!
