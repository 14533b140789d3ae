use crate::ids::ids_view;
use vstd::prelude::*;

verus! {

/// How many times a scan for the drone's network is repeated before giving up.
pub const SSID_SCAN_RETRIES: u32 = 30;

/// The upper-case form of a text, as Rust's Unicode case mapping gives it.
pub uninterp spec fn upper_of(s: Seq<char>) -> Seq<char>;

/// Relies on `str::to_uppercase`: the upper-case form depends on the characters
/// alone.
#[verifier::external_body]
fn to_upper(s: &str) -> (r: String)
    ensures
        r@ == upper_of(s@),
{
    s.to_uppercase()
}

/// Whether an upper-case interface name marks a wireless adapter.
pub open spec fn wireless_prefixed(upper: Seq<char>) -> bool {
    upper.len() >= 2 && upper[0] == 'W' && upper[1] == 'L'
}

/// Whether an interface name marks a wireless adapter, case aside.
pub open spec fn is_wireless(name: Seq<char>) -> bool {
    wireless_prefixed(upper_of(name))
}

/// Whether the name of a network found by a scan is the one sought, case aside.
pub open spec fn same_ssid(found: Seq<char>, sought: Seq<char>) -> bool {
    upper_of(found) == upper_of(sought)
}

/// What to do after one scan for the drone's network.
pub enum ScanStep {
    /// The network is in reach.
    Found,
    /// Scan again after a pause.
    Retry,
    /// Give up.
    TimedOut,
}

/// The host's network adapters.
pub struct Network;

impl Network {
    /// Whether an interface name, already in upper case, marks a wireless
    /// adapter: it starts with `WL`.
    pub fn is_wireless_upper(upper: &str) -> (r: bool)
        ensures
            r == wireless_prefixed(upper@),
    {
        let n = upper.unicode_len();
        n >= 2 && upper.get_char(0) == 'W' && upper.get_char(1) == 'L'
    }

    /// The first wireless adapter among `all_interfaces`, if there is one.
    pub fn filter_wifi_adapter(all_interfaces: Vec<String>) -> (r: Option<String>)
        ensures
            match r {
                Some(a) => exists|i: int|
                    0 <= i < all_interfaces@.len() && all_interfaces@[i]@ == a@ && is_wireless(
                        all_interfaces@[i]@,
                    ) && forall|j: int| 0 <= j < i ==> !is_wireless(#[trigger] all_interfaces@[j]@),
                None => forall|i: int|
                    0 <= i < all_interfaces@.len() ==> !is_wireless(#[trigger] all_interfaces@[i]@),
            },
    {
        let mut i: usize = 0;
        while i < all_interfaces.len()
            invariant
                0 <= i <= all_interfaces@.len(),
                forall|j: int| 0 <= j < i ==> !is_wireless(#[trigger] all_interfaces@[j]@),
            decreases all_interfaces@.len() - i,
        {
            let upper = to_upper(all_interfaces[i].as_str());
            if Network::is_wireless_upper(upper.as_str()) {
                return Some(all_interfaces[i].clone());
            }
            i = i + 1;
        }
        None
    }

    /// Whether any of the scanned names, already in upper case, equals the
    /// sought one, also in upper case.
    pub fn contains_upper(found_upper: &Vec<String>, sought_upper: &String) -> (r: bool)
        ensures
            r == ids_view(*found_upper).contains(sought_upper@),
    {
        let mut i: usize = 0;
        while i < found_upper.len()
            invariant
                0 <= i <= found_upper@.len(),
                forall|j: int| 0 <= j < i ==> ids_view(*found_upper)[j] != sought_upper@,
            decreases found_upper@.len() - i,
        {
            if found_upper[i] == *sought_upper {
                proof {
                    assert(ids_view(*found_upper)[i as int] == sought_upper@);
                }
                return true;
            }
            i = i + 1;
        }
        false
    }

    /// The step after a scan that found the networks `found`, `retries` scans
    /// having failed before: done when the sought network is among them, given up
    /// after the last retry, else another try.
    pub fn scan_outcome(found: &Vec<String>, ssid: &str, retries: u32) -> (r: ScanStep)
        ensures
            (exists|i: int| 0 <= i < found@.len() && same_ssid(#[trigger] found@[i]@, ssid@)) ==> r is Found,
            !(exists|i: int| 0 <= i < found@.len() && same_ssid(#[trigger] found@[i]@, ssid@)) ==> (if retries >= SSID_SCAN_RETRIES {
                r is TimedOut
            } else {
                r is Retry
            }),
    {
        let sought = to_upper(ssid);
        let mut upper: Vec<String> = Vec::new();
        let mut i: usize = 0;
        while i < found.len()
            invariant
                0 <= i <= found@.len(),
                upper@.len() == i,
                forall|j: int| 0 <= j < i ==> (#[trigger] upper@[j])@ == upper_of(found@[j]@),
            decreases found@.len() - i,
        {
            upper.push(to_upper(found[i].as_str()));
            i = i + 1;
        }
        let hit = Network::contains_upper(&upper, &sought);
        proof {
            if hit {
                let j = choose|j: int| 0 <= j < upper@.len() && ids_view(upper)[j] == sought@;
                assert(same_ssid(found@[j]@, ssid@));
            } else {
                assert forall|j: int| 0 <= j < found@.len() implies !same_ssid(#[trigger] found@[j]@, ssid@) by {
                    assert(ids_view(upper)[j] == upper@[j]@);
                }
            }
        }
        if hit {
            ScanStep::Found
        } else if retries >= SSID_SCAN_RETRIES {
            ScanStep::TimedOut
        } else {
            ScanStep::Retry
        }
    }
}

} // verus!
