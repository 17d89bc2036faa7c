use vstd::prelude::*;

verus! {

/// A dialable number: its digits (ASCII), the track played when the call is
/// answered, and how long it rings before that.
pub struct Route {
    pub digits: Vec<u8>,
    pub file_index: u16,
    pub ring_total_ms: u32,
}

/// Digits, track and ringing time of a route.
pub type RouteView = (Seq<u8>, u16, u32);

impl View for Route {
    type V = RouteView;

    open spec fn view(&self) -> RouteView {
        (self.digits@, self.file_index, self.ring_total_ms)
    }
}

/// The routing table: `5664`, `88522222` and `112`, with their tracks and ringing times.
pub open spec fn route_table() -> Seq<RouteView> {
    seq![
        (seq![0x35u8, 0x36u8, 0x36u8, 0x34u8], 1u16, 4000u32),
        (seq![0x38u8, 0x38u8, 0x35u8, 0x32u8, 0x32u8, 0x32u8, 0x32u8, 0x32u8], 2u16, 7000u32),
        (seq![0x31u8, 0x31u8, 0x32u8], 3u16, 7500u32),
    ]
}

/// Whether `prefix` is a prefix of `whole`.
pub open spec fn is_prefix_of(prefix: Seq<u8>, whole: Seq<u8>) -> bool {
    prefix.len() <= whole.len() && whole.subrange(0, prefix.len() as int) == prefix
}

/// Whether some route's digits start with `digits`.
pub open spec fn is_valid_prefix_spec(digits: Seq<u8>) -> bool {
    exists|i: int| 0 <= i < route_table().len() && is_prefix_of(digits, #[trigger] route_table()[i].0)
}

/// The first route whose digits are exactly `digits`.
pub open spec fn route_index(digits: Seq<u8>) -> Option<int> {
    if digits == route_table()[0].0 {
        Some(0)
    } else if digits == route_table()[1].0 {
        Some(1)
    } else if digits == route_table()[2].0 {
        Some(2)
    } else {
        None
    }
}

pub open spec fn find_route_spec(digits: Seq<u8>) -> Option<RouteView> {
    match route_index(digits) {
        Some(i) => Some(route_table()[i]),
        None => None,
    }
}

/// The routing table.
pub fn routes() -> (table: Vec<Route>)
    ensures
        table.len() == route_table().len(),
        forall|i: int| 0 <= i < table.len() ==> #[trigger] table[i]@ == route_table()[i],
{
    let table = vec![
        Route { digits: vec![0x35u8, 0x36u8, 0x36u8, 0x34u8], file_index: 1, ring_total_ms: 4000 },
        Route {
            digits: vec![0x38u8, 0x38u8, 0x35u8, 0x32u8, 0x32u8, 0x32u8, 0x32u8, 0x32u8],
            file_index: 2,
            ring_total_ms: 7000,
        },
        Route { digits: vec![0x31u8, 0x31u8, 0x32u8], file_index: 3, ring_total_ms: 7500 },
    ];
    assert(table[0]@ == route_table()[0]);
    assert(table[1]@ == route_table()[1]);
    assert(table[2]@ == route_table()[2]);
    table
}

fn starts_with(whole: &[u8], prefix: &[u8]) -> (r: bool)
    ensures
        r == is_prefix_of(prefix@, whole@),
{
    if prefix.len() > whole.len() {
        return false;
    }
    let mut i: usize = 0;
    while i < prefix.len()
        invariant
            prefix.len() <= whole.len(),
            0 <= i <= prefix.len(),
            forall|j: int| 0 <= j < i ==> whole@[j] == prefix@[j],
        decreases prefix.len() - i,
    {
        if whole[i] != prefix[i] {
            assert(whole@.subrange(0, prefix@.len() as int)[i as int] != prefix@[i as int]);
            return false;
        }
        i = i + 1;
    }
    assert(whole@.subrange(0, prefix@.len() as int) =~= prefix@);
    true
}

fn bytes_equal(a: &[u8], b: &[u8]) -> (r: bool)
    ensures
        r == (a@ == b@),
{
    if a.len() != b.len() {
        return false;
    }
    let same = starts_with(a, b);
    proof {
        if same {
            assert(a@ =~= a@.subrange(0, b@.len() as int));
        } else {
            assert(a@.subrange(0, b@.len() as int) =~= a@);
        }
    }
    same
}

/// Whether some route's number starts with the digits in `buf`.
pub fn is_valid_prefix(buf: &[u8]) -> (r: bool)
    ensures
        r == is_valid_prefix_spec(buf@),
{
    let table = routes();
    let mut i: usize = 0;
    while i < table.len()
        invariant
            table.len() == route_table().len(),
            forall|k: int| 0 <= k < table.len() ==> #[trigger] table[k]@ == route_table()[k],
            0 <= i <= table.len(),
            forall|k: int| 0 <= k < i ==> !is_prefix_of(buf@, #[trigger] route_table()[k].0),
        decreases table.len() - i,
    {
        if starts_with(table[i].digits.as_slice(), buf) {
            assert(table[i as int]@ == route_table()[i as int]);
            assert(is_prefix_of(buf@, route_table()[i as int].0));
            return true;
        }
        assert(table[i as int]@ == route_table()[i as int]);
        i = i + 1;
    }
    false
}

/// The first route whose number is exactly the digits in `buf`.
pub fn find_exact_route(buf: &[u8]) -> (r: Option<Route>)
    ensures
        match r {
            Some(route) => find_route_spec(buf@) == Some(route@),
            None => find_route_spec(buf@) is None,
        },
{
    let mut table = routes();
    let mut i: usize = 0;
    while i < table.len()
        invariant
            table.len() == route_table().len(),
            forall|k: int| 0 <= k < table.len() ==> #[trigger] table[k]@ == route_table()[k],
            0 <= i <= table.len(),
            forall|k: int| 0 <= k < i ==> buf@ != #[trigger] route_table()[k].0,
        decreases table.len() - i,
    {
        assert(table[i as int]@ == route_table()[i as int]);
        if bytes_equal(table[i].digits.as_slice(), buf) {
            let route = table.remove(i);
            return Some(route);
        }
        i = i + 1;
    }
    None
}

/// Every route number is a nonempty run of at most eight decimal digits, no
/// route number is a prefix of another, and every route is found by its number.
pub proof fn lemma_route_table_shape()
    ensures
        forall|i: int| 0 <= i < route_table().len() ==> {
            let d = #[trigger] route_table()[i].0;
            &&& 1 <= d.len() <= 8
            &&& forall|k: int| 0 <= k < d.len() ==> 0x30 <= #[trigger] d[k] <= 0x39
            &&& find_route_spec(d) == Some(route_table()[i])
        },
        forall|i: int, j: int| 0 <= i < route_table().len() && 0 <= j < route_table().len() && i != j
            ==> !is_prefix_of(#[trigger] route_table()[i].0, #[trigger] route_table()[j].0),
{
    let t = route_table();
    assert(t[0].0 != t[1].0);
    assert(t[0].0 != t[2].0);
    assert(t[1].0 != t[2].0);
    assert(t[1].0.subrange(0, 4)[0] != t[0].0[0]);
    assert(t[2].0.subrange(0, 3)[0] != t[1].0[0]);
    assert(t[0].0.subrange(0, 3)[0] != t[2].0[0]);
    assert(t[1].0.subrange(0, 3)[0] != t[2].0[0]);
}

/// An exact route number is also a valid prefix.
pub proof fn lemma_exact_route_is_prefix(digits: Seq<u8>)
    ensures
        find_route_spec(digits) is Some ==> is_valid_prefix_spec(digits),
{
    if let Some(i) = route_index(digits) {
        assert(route_table()[i].0.subrange(0, digits.len() as int) =~= digits);
        assert(is_prefix_of(digits, route_table()[i].0));
    }
}

/// A route is found only for digits equal to its number, and one is found
/// whenever the digits equal some route's number.
pub proof fn lemma_find_route_exact(digits: Seq<u8>)
    ensures
        find_route_spec(digits) matches Some(r) ==> digits == r.0
            && exists|i: int| 0 <= i < route_table().len() && r == #[trigger] route_table()[i],
        find_route_spec(digits) is None <==> forall|i: int|
            0 <= i < route_table().len() ==> #[trigger] route_table()[i].0 != digits,
{
    if let Some(i) = route_index(digits) {
        assert(find_route_spec(digits) == Some(route_table()[i]));
    } else {
        assert forall|i: int| 0 <= i < route_table().len() implies #[trigger] route_table()[i].0 != digits by {}
    }
}

} // verus!
