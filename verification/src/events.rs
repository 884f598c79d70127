//! Events: a severity, a group and a number inside the group, packed into one
//! word with the severity in the two highest bits.
use crate::ecss::{write_front, EcssEnumeration};
use crate::spacepackets::{u16_to_be, u32_to_be, ByteConversionError};
use core::marker::PhantomData;
use vstd::prelude::*;

verus! {

/// The raw form of the widest event.
pub type LargestEventRaw = u32;

/// The group id of the widest event.
pub type LargestGroupIdRaw = u16;

/// How serious an event is.
#[derive(Clone, Copy, Debug, PartialEq, Eq, Hash, Structural)]
pub enum Severity {
    INFO,
    LOW,
    MEDIUM,
    HIGH,
}

impl Severity {
    /// The two bits that stand for the severity.
    pub open spec fn code(self) -> u8 {
        match self {
            Severity::INFO => 0,
            Severity::LOW => 1,
            Severity::MEDIUM => 2,
            Severity::HIGH => 3,
        }
    }

    /// The severity that the two low bits of `code` stand for.
    pub open spec fn of_code(code: u8) -> Severity {
        if code % 4 == 0 {
            Severity::INFO
        } else if code % 4 == 1 {
            Severity::LOW
        } else if code % 4 == 2 {
            Severity::MEDIUM
        } else {
            Severity::HIGH
        }
    }

    pub fn as_u8(self) -> (r: u8)
        ensures
            r == self.code(),
    {
        match self {
            Severity::INFO => 0,
            Severity::LOW => 1,
            Severity::MEDIUM => 2,
            Severity::HIGH => 3,
        }
    }

    /// `None` for a number above 3.
    pub fn from_u8(code: u8) -> (r: Option<Severity>)
        ensures
            r == (if code < 4 {
                Some(Severity::of_code(code))
            } else {
                None
            }),
    {
        match code {
            0 => Some(Severity::INFO),
            1 => Some(Severity::LOW),
            2 => Some(Severity::MEDIUM),
            3 => Some(Severity::HIGH),
            _ => None,
        }
    }
}

/// A type that stands for one severity.
pub trait HasSeverity {
    open spec fn severity_spec() -> Severity {
        arbitrary()
    }

    fn severity() -> (r: Severity)
        ensures
            r == Self::severity_spec(),
    ;
}

#[derive(Clone, Copy, Debug, PartialEq, Eq)]
pub struct SeverityInfo {}

#[derive(Clone, Copy, Debug, PartialEq, Eq)]
pub struct SeverityLow {}

#[derive(Clone, Copy, Debug, PartialEq, Eq)]
pub struct SeverityMedium {}

#[derive(Clone, Copy, Debug, PartialEq, Eq)]
pub struct SeverityHigh {}

impl HasSeverity for SeverityInfo {
    open spec fn severity_spec() -> Severity {
        Severity::INFO
    }

    fn severity() -> (r: Severity) {
        Severity::INFO
    }
}

impl HasSeverity for SeverityLow {
    open spec fn severity_spec() -> Severity {
        Severity::LOW
    }

    fn severity() -> (r: Severity) {
        Severity::LOW
    }
}

impl HasSeverity for SeverityMedium {
    open spec fn severity_spec() -> Severity {
        Severity::MEDIUM
    }

    fn severity() -> (r: Severity) {
        Severity::MEDIUM
    }
}

impl HasSeverity for SeverityHigh {
    open spec fn severity_spec() -> Severity {
        Severity::HIGH
    }

    fn severity() -> (r: Severity) {
        Severity::HIGH
    }
}

/// What every event offers, whatever its width.
pub trait GenericEvent: EcssEnumeration {
    open spec fn severity_spec(&self) -> Severity {
        arbitrary()
    }

    open spec fn raw_largest_spec(&self) -> LargestEventRaw {
        arbitrary()
    }

    open spec fn group_largest_spec(&self) -> LargestGroupIdRaw {
        arbitrary()
    }

    fn severity(&self) -> (r: Severity)
        ensures
            r == self.severity_spec(),
    ;

    /// The raw form of the event, widened to the widest event.
    fn raw_as_largest_type(&self) -> (r: LargestEventRaw)
        ensures
            r == self.raw_largest_spec(),
    ;

    /// The group of the event, widened to the widest group id.
    fn group_id_as_largest_type(&self) -> (r: LargestGroupIdRaw)
        ensures
            r == self.group_largest_spec(),
    ;
}

/// Largest group id of an [`EventU32`], 14 bits.
pub const MAX_GROUP_ID_U32: u16 = 0x3FFF;

/// Largest group id of an [`EventU16`], 6 bits.
pub const MAX_GROUP_ID_U16: u8 = 0x3F;

/// An event of 32 bits: two bits of severity, 14 bits of group id and 16 bits
/// of unique id.
#[derive(Clone, Copy, Debug, PartialEq, Eq, Hash, Structural)]
pub struct EventU32 {
    severity: Severity,
    group_id: u16,
    unique_id: u16,
}

/// The fields of an [`EventU32`].
pub struct EventU32Model {
    pub severity: Severity,
    pub group_id: u16,
    pub unique_id: u16,
}

impl EventU32Model {
    pub open spec fn raw(self) -> u32 {
        (self.severity.code() as int * 0x4000_0000 + (self.group_id % 0x4000) as int * 0x1_0000
            + self.unique_id as int) as u32
    }

    pub open spec fn of_raw(raw: u32) -> EventU32Model {
        EventU32Model {
            severity: Severity::of_code((raw / 0x4000_0000) as u8),
            group_id: (raw / 0x1_0000 % 0x4000) as u16,
            unique_id: (raw % 0x1_0000) as u16,
        }
    }

    pub open spec fn wf(self) -> bool {
        self.group_id <= MAX_GROUP_ID_U32
    }
}

impl View for EventU32 {
    type V = EventU32Model;

    closed spec fn view(&self) -> EventU32Model {
        EventU32Model { severity: self.severity, group_id: self.group_id, unique_id: self.unique_id }
    }
}

impl EventU32 {
    /// The event with the given fields.
    pub closed spec fn of_model(m: EventU32Model) -> EventU32 {
        EventU32 { severity: m.severity, group_id: m.group_id, unique_id: m.unique_id }
    }

    /// An event is the event of its fields.
    pub proof fn lemma_of_model(self)
        ensures
            EventU32::of_model(self@) == self,
    {
    }

    /// `None` where `group_id` has more than 14 bits.
    pub fn new(severity: Severity, group_id: u16, unique_id: u16) -> (r: Option<Self>)
        ensures
            match r {
                Some(e) => group_id <= MAX_GROUP_ID_U32 && e@ == (EventU32Model {
                    severity,
                    group_id,
                    unique_id,
                }),
                None => group_id > MAX_GROUP_ID_U32,
            },
    {
        if group_id > MAX_GROUP_ID_U32 {
            return None;
        }
        Some(EventU32 { severity, group_id, unique_id })
    }

    /// The event that `raw` stands for.
    pub fn from_raw(raw: u32) -> (r: Self)
        ensures
            r@ == EventU32Model::of_raw(raw),
            r@.wf(),
            r@.raw() == raw,
    {
        let code = (raw / 0x4000_0000) as u8;
        let severity = if code % 4 == 0 {
            Severity::INFO
        } else if code % 4 == 1 {
            Severity::LOW
        } else if code % 4 == 2 {
            Severity::MEDIUM
        } else {
            Severity::HIGH
        };
        let r = EventU32 {
            severity,
            group_id: (raw / 0x1_0000 % 0x4000) as u16,
            unique_id: (raw % 0x1_0000) as u16,
        };
        assert(r@.raw() == raw) by {
            let c = (raw / 0x4000_0000) as int;
            assert(0 <= c < 4);
            assert(severity.code() == c);
            let g = (raw / 0x1_0000 % 0x4000) as int;
            let u = (raw % 0x1_0000) as int;
            assert(raw / 0x1_0000 == c * 0x4000 + g);
            assert(raw == c * 0x4000_0000 + g * 0x1_0000 + u);
        }
        r
    }

    pub fn raw(&self) -> (r: u32)
        ensures
            r == self@.raw(),
    {
        let s: u32 = self.severity.as_u8() as u32;
        let g: u32 = (self.group_id % 0x4000) as u32;
        s * 0x4000_0000 + g * 0x1_0000 + self.unique_id as u32
    }

    pub fn group_id(&self) -> (r: u16)
        ensures
            r == self@.group_id,
    {
        self.group_id
    }

    pub fn unique_id(&self) -> (r: u16)
        ensures
            r == self@.unique_id,
    {
        self.unique_id
    }
}

/// Two events with the same raw form are the same event: no two severities,
/// groups or unique ids share a raw value.
pub proof fn law_event_u32_raw_injective(a: EventU32Model, b: EventU32Model)
    requires
        a.wf(),
        b.wf(),
        a.raw() == b.raw(),
    ensures
        a == b,
{
    let ca = a.severity.code() as int;
    let cb = b.severity.code() as int;
    let ra = ca * 0x4000_0000 + a.group_id as int * 0x1_0000 + a.unique_id as int;
    let rb = cb * 0x4000_0000 + b.group_id as int * 0x1_0000 + b.unique_id as int;
    assert(a.raw() == ra);
    assert(b.raw() == rb);
    assert(ra / 0x4000_0000 == ca);
    assert(rb / 0x4000_0000 == cb);
    assert(ra % 0x1_0000 == a.unique_id);
    assert(rb % 0x1_0000 == b.unique_id);
}

impl EcssEnumeration for EventU32 {
    open spec fn raw_bytes(&self) -> Seq<u8> {
        crate::spacepackets::be_bytes_u32(self@.raw())
    }

    fn byte_width(&self) -> (r: usize) {
        4
    }

    fn write_to_be_bytes(&self, buf: &mut [u8]) -> (r: Result<(), ByteConversionError>) {
        let bytes = u32_to_be(self.raw());
        write_front(buf, &bytes)
    }
}

impl GenericEvent for EventU32 {
    open spec fn severity_spec(&self) -> Severity {
        self@.severity
    }

    open spec fn raw_largest_spec(&self) -> LargestEventRaw {
        self@.raw()
    }

    open spec fn group_largest_spec(&self) -> LargestGroupIdRaw {
        self@.group_id
    }

    fn severity(&self) -> (r: Severity) {
        self.severity
    }

    fn raw_as_largest_type(&self) -> (r: LargestEventRaw) {
        self.raw()
    }

    fn group_id_as_largest_type(&self) -> (r: LargestGroupIdRaw) {
        self.group_id
    }
}

/// An [`EventU32`] whose severity is part of its type: the event has the
/// severity of the type, and its group id has no more than 14 bits.
#[derive(Debug, PartialEq, Eq)]
pub struct EventU32TypedSev<SEVERITY: HasSeverity> {
    event: EventU32,
    phantom: PhantomData<SEVERITY>,
}

impl<SEVERITY: HasSeverity> Clone for EventU32TypedSev<SEVERITY> {
    fn clone(&self) -> (r: Self)
        ensures
            r == *self,
    {
        proof {
            use_type_invariant(self);
        }
        EventU32TypedSev { event: self.event, phantom: PhantomData }
    }
}

impl<SEVERITY: HasSeverity> Copy for EventU32TypedSev<SEVERITY> {

}

impl<SEVERITY: HasSeverity> EventU32TypedSev<SEVERITY> {
    pub closed spec fn event(&self) -> EventU32 {
        self.event
    }

    /// The invariant of the type: the event has the severity of the type and
    /// a group id in its range.
    #[verifier::type_invariant]
    spec fn typed(&self) -> bool {
        self.event@.severity == SEVERITY::severity_spec() && self.event@.wf()
    }

    /// `None` where `group_id` has more than 14 bits.
    pub fn new(group_id: u16, unique_id: u16) -> (r: Option<Self>)
        ensures
            match r {
                Some(e) => group_id <= MAX_GROUP_ID_U32 && e.event()@ == (EventU32Model {
                    severity: SEVERITY::severity_spec(),
                    group_id,
                    unique_id,
                }),
                None => group_id > MAX_GROUP_ID_U32,
            },
    {
        match EventU32::new(SEVERITY::severity(), group_id, unique_id) {
            Some(event) => Some(EventU32TypedSev { event, phantom: PhantomData }),
            None => None,
        }
    }

    /// The event without the severity in its type. It has the severity of the
    /// type, and its group id is in its range.
    pub fn into_event(self) -> (r: EventU32)
        ensures
            r == self.event(),
            r@.severity == SEVERITY::severity_spec(),
            r@.wf(),
    {
        proof {
            use_type_invariant(&self);
        }
        self.event
    }
}

/// An event of 16 bits: two bits of severity, six bits of group id and eight
/// bits of unique id.
#[derive(Clone, Copy, Debug, PartialEq, Eq, Hash, Structural)]
pub struct EventU16 {
    severity: Severity,
    group_id: u8,
    unique_id: u8,
}

/// The fields of an [`EventU16`].
pub struct EventU16Model {
    pub severity: Severity,
    pub group_id: u8,
    pub unique_id: u8,
}

impl EventU16Model {
    pub open spec fn raw(self) -> u16 {
        (self.severity.code() as int * 0x4000 + (self.group_id % 0x40) as int * 0x100
            + self.unique_id as int) as u16
    }

    pub open spec fn wf(self) -> bool {
        self.group_id <= MAX_GROUP_ID_U16
    }
}

impl View for EventU16 {
    type V = EventU16Model;

    closed spec fn view(&self) -> EventU16Model {
        EventU16Model { severity: self.severity, group_id: self.group_id, unique_id: self.unique_id }
    }
}

impl EventU16 {
    /// `None` where `group_id` has more than six bits.
    pub fn new(severity: Severity, group_id: u8, unique_id: u8) -> (r: Option<Self>)
        ensures
            match r {
                Some(e) => group_id <= MAX_GROUP_ID_U16 && e@ == (EventU16Model {
                    severity,
                    group_id,
                    unique_id,
                }),
                None => group_id > MAX_GROUP_ID_U16,
            },
    {
        if group_id > MAX_GROUP_ID_U16 {
            return None;
        }
        Some(EventU16 { severity, group_id, unique_id })
    }

    pub fn raw(&self) -> (r: u16)
        ensures
            r == self@.raw(),
    {
        let s: u16 = self.severity.as_u8() as u16;
        let g: u16 = (self.group_id % 0x40) as u16;
        s * 0x4000 + g * 0x100 + self.unique_id as u16
    }

    pub fn group_id(&self) -> (r: u8)
        ensures
            r == self@.group_id,
    {
        self.group_id
    }

    pub fn unique_id(&self) -> (r: u8)
        ensures
            r == self@.unique_id,
    {
        self.unique_id
    }
}

/// Two 16-bit events with the same raw form are the same event.
pub proof fn law_event_u16_raw_injective(a: EventU16Model, b: EventU16Model)
    requires
        a.wf(),
        b.wf(),
        a.raw() == b.raw(),
    ensures
        a == b,
{
    let ca = a.severity.code() as int;
    let cb = b.severity.code() as int;
    let ra = ca * 0x4000 + a.group_id as int * 0x100 + a.unique_id as int;
    let rb = cb * 0x4000 + b.group_id as int * 0x100 + b.unique_id as int;
    assert(a.raw() == ra);
    assert(b.raw() == rb);
    assert(ra / 0x4000 == ca);
    assert(rb / 0x4000 == cb);
    assert(ra % 0x100 == a.unique_id);
    assert(rb % 0x100 == b.unique_id);
}

impl EcssEnumeration for EventU16 {
    open spec fn raw_bytes(&self) -> Seq<u8> {
        crate::spacepackets::be_bytes_u16(self@.raw())
    }

    fn byte_width(&self) -> (r: usize) {
        2
    }

    fn write_to_be_bytes(&self, buf: &mut [u8]) -> (r: Result<(), ByteConversionError>) {
        let bytes = u16_to_be(self.raw());
        write_front(buf, &bytes)
    }
}

impl GenericEvent for EventU16 {
    open spec fn severity_spec(&self) -> Severity {
        self@.severity
    }

    open spec fn raw_largest_spec(&self) -> LargestEventRaw {
        self@.raw() as u32
    }

    open spec fn group_largest_spec(&self) -> LargestGroupIdRaw {
        self@.group_id as u16
    }

    fn severity(&self) -> (r: Severity) {
        self.severity
    }

    fn raw_as_largest_type(&self) -> (r: LargestEventRaw) {
        self.raw() as u32
    }

    fn group_id_as_largest_type(&self) -> (r: LargestGroupIdRaw) {
        self.group_id as u16
    }
}

} // verus!
