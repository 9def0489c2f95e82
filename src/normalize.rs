use vstd::prelude::*;

use crate::address::Address;

verus! {

/// Transmit power levels a controller may be asked for.
#[derive(Debug, Clone, Copy, PartialEq, Eq, Structural)]
pub enum TxPower {
    Minus40dBm,
    Minus20dBm,
    Minus16dBm,
    Minus12dBm,
    Minus8dBm,
    Minus4dBm,
    ZerodBm,
    Plus2dBm,
    Plus3dBm,
    Plus4dBm,
    Plus5dBm,
    Plus6dBm,
    Plus7dBm,
    Plus8dBm,
}

impl TxPower {
    pub open spec fn spec_dbm(self) -> int {
        match self {
            TxPower::Minus40dBm => -40,
            TxPower::Minus20dBm => -20,
            TxPower::Minus16dBm => -16,
            TxPower::Minus12dBm => -12,
            TxPower::Minus8dBm => -8,
            TxPower::Minus4dBm => -4,
            TxPower::ZerodBm => 0,
            TxPower::Plus2dBm => 2,
            TxPower::Plus3dBm => 3,
            TxPower::Plus4dBm => 4,
            TxPower::Plus5dBm => 5,
            TxPower::Plus6dBm => 6,
            TxPower::Plus7dBm => 7,
            TxPower::Plus8dBm => 8,
        }
    }

    /// The level in dBm.
    pub fn dbm(&self) -> (r: i8)
        ensures
            r as int == self.spec_dbm(),
    {
        match self {
            TxPower::Minus40dBm => -40,
            TxPower::Minus20dBm => -20,
            TxPower::Minus16dBm => -16,
            TxPower::Minus12dBm => -12,
            TxPower::Minus8dBm => -8,
            TxPower::Minus4dBm => -4,
            TxPower::ZerodBm => 0,
            TxPower::Plus2dBm => 2,
            TxPower::Plus3dBm => 3,
            TxPower::Plus4dBm => 4,
            TxPower::Plus5dBm => 5,
            TxPower::Plus6dBm => 6,
            TxPower::Plus7dBm => 7,
            TxPower::Plus8dBm => 8,
        }
    }
}

/// Advertising event properties.
#[derive(Debug, Clone, Copy, PartialEq, Eq, Structural)]
pub struct AdvEventProps {
    pub connectable_adv: bool,
    pub scannable_adv: bool,
    pub directed_adv: bool,
    pub high_duty_cycle_directed_connectable_adv: bool,
    pub legacy_adv: bool,
    pub anonymous_adv: bool,
    pub include_tx_power: bool,
}

/// An advertising set: its handle, how long it runs (in units of 10 ms, 0
/// for no limit) and how many extended events it may send (0 for no limit).
#[derive(Debug, Clone, Copy, PartialEq, Eq, Structural)]
pub struct AdvSet {
    pub adv_handle: u8,
    pub duration: u16,
    pub max_ext_adv_events: u8,
}

/// The one parameter form every advertisement is submitted in.
#[derive(Debug, Clone, Copy, PartialEq, Eq)]
pub struct RawAdvertisement<'d> {
    pub props: AdvEventProps,
    pub adv_data: &'d [u8],
    pub scan_data: &'d [u8],
    pub peer: Option<Address>,
    pub set: AdvSet,
}

/// A normalized advertisement as plain values.
pub struct RawAdvertisementView {
    pub props: AdvEventProps,
    pub adv_data: Seq<u8>,
    pub scan_data: Seq<u8>,
    pub peer: Option<Address>,
    pub set: AdvSet,
}

impl<'d> View for RawAdvertisement<'d> {
    type V = RawAdvertisementView;

    open spec fn view(&self) -> RawAdvertisementView {
        RawAdvertisementView {
            props: self.props,
            adv_data: self.adv_data@,
            scan_data: self.scan_data@,
            peer: self.peer,
            set: self.set,
        }
    }
}

/// Legacy advertisement types, which works with BLE 4.0 and newer
pub enum Advertisement<'d> {
    ConnectableScannableUndirected { adv_data: &'d [u8], scan_data: &'d [u8] },
    ConnectableNonscannableDirected { peer: Address },
    ConnectableNonscannableDirectedHighDuty { peer: Address },
    NonconnectableScannableUndirected { adv_data: &'d [u8], scan_data: &'d [u8] },
    NonconnectableNonscannableUndirected { adv_data: &'d [u8] },
    Extended(ExtendedAdvertisement<'d>),
}

/// Extended advertisement types, which works with BLE 5.0 and newer
pub enum ExtendedAdvertisement<'d> {
    ConnectableNonscannableUndirected { set_id: u8, adv_data: &'d [u8] },
    ConnectableNonscannableDirected { set_id: u8, peer: Address, adv_data: &'d [u8] },
    NonconnectableScannableUndirected { set_id: u8, scan_data: &'d [u8] },
    NonconnectableScannableDirected { set_id: u8, peer: Address, scan_data: &'d [u8] },
    NonconnectableNonscannableUndirected { set_id: u8, anonymous: bool, adv_data: &'d [u8] },
    NonconnectableNonscannableDirected {
        set_id: u8,
        anonymous: bool,
        peer: Address,
        adv_data: &'d [u8],
    },
}

/// Event properties with the given bits and no transmit power included.
pub open spec fn event_props(
    connectable: bool,
    scannable: bool,
    directed: bool,
    high_duty: bool,
    anonymous: bool,
    legacy: bool,
) -> AdvEventProps {
    AdvEventProps {
        connectable_adv: connectable,
        scannable_adv: scannable,
        directed_adv: directed,
        high_duty_cycle_directed_connectable_adv: high_duty,
        legacy_adv: legacy,
        anonymous_adv: anonymous,
        include_tx_power: false,
    }
}

/// The set for an advertising handle, with no limits.
pub open spec fn adv_set(handle: u8) -> AdvSet {
    AdvSet { adv_handle: handle, duration: 0, max_ext_adv_events: 0 }
}

pub open spec fn raw_view(
    props: AdvEventProps,
    adv_data: Seq<u8>,
    scan_data: Seq<u8>,
    peer: Option<Address>,
    handle: u8,
) -> RawAdvertisementView {
    RawAdvertisementView { props, adv_data, scan_data, peer, set: adv_set(handle) }
}

/// The normalized form of an extended advertisement: the advertising handle
/// is the set id, and the legacy bit is clear.
pub open spec fn normalize_extended<'d>(a: ExtendedAdvertisement<'d>) -> RawAdvertisementView {
    match a {
        ExtendedAdvertisement::ConnectableNonscannableUndirected { set_id, adv_data } => raw_view(
            event_props(true, false, false, false, false, false),
            adv_data@,
            Seq::empty(),
            None,
            set_id,
        ),
        ExtendedAdvertisement::ConnectableNonscannableDirected { set_id, peer, adv_data } =>
            raw_view(
            event_props(true, false, false, false, false, false),
            adv_data@,
            Seq::empty(),
            Some(peer),
            set_id,
        ),
        ExtendedAdvertisement::NonconnectableScannableUndirected { set_id, scan_data } => raw_view(
            event_props(false, false, false, false, false, false),
            Seq::empty(),
            scan_data@,
            None,
            set_id,
        ),
        ExtendedAdvertisement::NonconnectableScannableDirected { set_id, peer, scan_data } =>
            raw_view(
            event_props(false, true, true, false, false, false),
            Seq::empty(),
            scan_data@,
            Some(peer),
            set_id,
        ),
        ExtendedAdvertisement::NonconnectableNonscannableUndirected {
            set_id,
            anonymous,
            adv_data,
        } => raw_view(
            event_props(false, false, false, false, anonymous, false),
            adv_data@,
            Seq::empty(),
            None,
            set_id,
        ),
        ExtendedAdvertisement::NonconnectableNonscannableDirected {
            set_id,
            anonymous,
            peer,
            adv_data,
        } => raw_view(
            event_props(false, false, true, false, anonymous, false),
            adv_data@,
            Seq::empty(),
            Some(peer),
            set_id,
        ),
    }
}

/// The normalized form of an advertisement: legacy forms use handle 0, set
/// the legacy bit and are never anonymous.
pub open spec fn normalize<'d>(a: Advertisement<'d>) -> RawAdvertisementView {
    match a {
        Advertisement::ConnectableScannableUndirected { adv_data, scan_data } => raw_view(
            event_props(true, true, false, false, false, true),
            adv_data@,
            scan_data@,
            None,
            0,
        ),
        Advertisement::ConnectableNonscannableDirected { peer } => raw_view(
            event_props(true, false, true, false, false, true),
            Seq::empty(),
            Seq::empty(),
            Some(peer),
            0,
        ),
        Advertisement::ConnectableNonscannableDirectedHighDuty { peer } => raw_view(
            event_props(true, false, false, true, false, true),
            Seq::empty(),
            Seq::empty(),
            Some(peer),
            0,
        ),
        Advertisement::NonconnectableScannableUndirected { adv_data, scan_data } => raw_view(
            event_props(false, true, false, false, false, true),
            adv_data@,
            scan_data@,
            None,
            0,
        ),
        Advertisement::NonconnectableNonscannableUndirected { adv_data } => raw_view(
            event_props(false, false, false, false, false, true),
            adv_data@,
            Seq::empty(),
            None,
            0,
        ),
        Advertisement::Extended(e) => normalize_extended(e),
    }
}

fn props(
    connectable: bool,
    scannable: bool,
    directed: bool,
    high_duty: bool,
    anonymous: bool,
    legacy: bool,
) -> (r: AdvEventProps)
    ensures
        r == event_props(connectable, scannable, directed, high_duty, anonymous, legacy),
{
    AdvEventProps {
        connectable_adv: connectable,
        scannable_adv: scannable,
        directed_adv: directed,
        high_duty_cycle_directed_connectable_adv: high_duty,
        legacy_adv: legacy,
        anonymous_adv: anonymous,
        include_tx_power: false,
    }
}

/// An empty byte string.
fn empty<'a>() -> (r: &'a [u8])
    ensures
        r@ == Seq::<u8>::empty(),
{
    let a: &'a [u8; 0] = &[];
    let r = a.as_slice();
    assert(r@ =~= Seq::<u8>::empty());
    r
}

fn set(handle: u8) -> (r: AdvSet)
    ensures
        r == adv_set(handle),
{
    AdvSet { adv_handle: handle, duration: 0, max_ext_adv_events: 0 }
}

impl<'d> Default for RawAdvertisement<'d> {
    /// Connectable and scannable legacy advertising with no data.
    fn default() -> (r: RawAdvertisement<'d>)
        ensures
            r@ == raw_view(
                event_props(true, true, false, false, false, true),
                Seq::empty(),
                Seq::empty(),
                None,
                0,
            ),
    {
        let e: &[u8] = empty();
        RawAdvertisement {
            props: props(true, true, false, false, false, true),
            adv_data: e,
            scan_data: e,
            peer: None,
            set: set(0),
        }
    }
}

impl<'d> RawAdvertisement<'d> {
    /// The normalized form of a legacy or extended advertisement.
    pub fn from_advertisement(val: Advertisement<'d>) -> (r: RawAdvertisement<'d>)
        ensures
            r@ == normalize(val),
    {
        let e: &[u8] = empty();
        match val {
            Advertisement::ConnectableScannableUndirected { adv_data, scan_data } => {
                RawAdvertisement {
                    props: props(true, true, false, false, false, true),
                    adv_data,
                    scan_data,
                    peer: None,
                    set: set(0),
                }
            },
            Advertisement::ConnectableNonscannableDirected { peer } => RawAdvertisement {
                props: props(true, false, true, false, false, true),
                adv_data: e,
                scan_data: e,
                peer: Some(peer),
                set: set(0),
            },
            Advertisement::ConnectableNonscannableDirectedHighDuty { peer } => RawAdvertisement {
                props: props(true, false, false, true, false, true),
                adv_data: e,
                scan_data: e,
                peer: Some(peer),
                set: set(0),
            },
            Advertisement::NonconnectableScannableUndirected { adv_data, scan_data } => {
                RawAdvertisement {
                    props: props(false, true, false, false, false, true),
                    adv_data,
                    scan_data,
                    peer: None,
                    set: set(0),
                }
            },
            Advertisement::NonconnectableNonscannableUndirected { adv_data } => RawAdvertisement {
                props: props(false, false, false, false, false, true),
                adv_data,
                scan_data: e,
                peer: None,
                set: set(0),
            },
            Advertisement::Extended(ext) => RawAdvertisement::from_extended(ext),
        }
    }

    /// The normalized form of an extended advertisement.
    pub fn from_extended(val: ExtendedAdvertisement<'d>) -> (r: RawAdvertisement<'d>)
        ensures
            r@ == normalize_extended(val),
    {
        let e: &[u8] = empty();
        match val {
            ExtendedAdvertisement::ConnectableNonscannableUndirected { adv_data, set_id } => {
                RawAdvertisement {
                    props: props(true, false, false, false, false, false),
                    adv_data,
                    scan_data: e,
                    peer: None,
                    set: set(set_id),
                }
            },
            ExtendedAdvertisement::ConnectableNonscannableDirected { adv_data, peer, set_id } => {
                RawAdvertisement {
                    props: props(true, false, false, false, false, false),
                    adv_data,
                    scan_data: e,
                    peer: Some(peer),
                    set: set(set_id),
                }
            },
            ExtendedAdvertisement::NonconnectableScannableUndirected { scan_data, set_id } => {
                RawAdvertisement {
                    props: props(false, false, false, false, false, false),
                    adv_data: e,
                    scan_data,
                    peer: None,
                    set: set(set_id),
                }
            },
            ExtendedAdvertisement::NonconnectableScannableDirected { scan_data, peer, set_id } => {
                RawAdvertisement {
                    props: props(false, true, true, false, false, false),
                    adv_data: e,
                    scan_data,
                    peer: Some(peer),
                    set: set(set_id),
                }
            },
            ExtendedAdvertisement::NonconnectableNonscannableUndirected {
                adv_data,
                anonymous,
                set_id,
            } => RawAdvertisement {
                props: props(false, false, false, false, anonymous, false),
                adv_data,
                scan_data: e,
                peer: None,
                set: set(set_id),
            },
            ExtendedAdvertisement::NonconnectableNonscannableDirected {
                adv_data,
                peer,
                anonymous,
                set_id,
            } => RawAdvertisement {
                props: props(false, false, true, false, anonymous, false),
                adv_data,
                scan_data: e,
                peer: Some(peer),
                set: set(set_id),
            },
        }
    }
}

} // verus!
