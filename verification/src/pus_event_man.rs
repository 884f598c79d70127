//! The dispatcher for event telemetry: it knows which events are disabled and
//! reports the others as PUS service 5 telemetry.
use crate::events::{EventU32, EventU32TypedSev, GenericEvent, HasSeverity, Severity};
use crate::index_map::{id_set_contains, id_set_insert, id_set_new, id_set_remove, IdSet};
use crate::pus_event::{EcssTmError, EcssTmSender, EventReporter, EventReporterBase, Subservices};
use crate::tm::TmModel;
use core::marker::PhantomData;
use crate::heapless_set::{
    heapless_capacity, heapless_id_set, heapless_id_set_contains, heapless_id_set_insert,
    heapless_id_set_new, heapless_id_set_remove, HeaplessIdSet,
};
use vstd::prelude::*;

verus! {

/// Keeps track of the events whose reporting is disabled.
///
/// `disabled` is the set of the raw forms of those events.
pub trait PusEventMgmtBackendProvider<Provider: GenericEvent> {
    type Error;

    open spec fn disabled(&self) -> Set<u32> {
        arbitrary()
    }

    /// An event is enabled unless it was disabled.
    fn event_enabled(&self, event: &Provider) -> (r: bool)
        ensures
            r == !self.disabled().contains(event.raw_largest_spec()),
    ;

    /// Whether the backend can take the event with the given raw form out of
    /// the disabled ones.
    open spec fn can_enable(&self, raw: u32) -> bool {
        arbitrary()
    }

    /// Whether the backend can put the event with the given raw form among
    /// the disabled ones. A backend of a fixed size may be full.
    open spec fn can_disable(&self, raw: u32) -> bool {
        arbitrary()
    }

    /// Takes the event out of the disabled ones, where the backend can.
    /// Returns whether it was one of them.
    fn enable_event_reporting(&mut self, event: &Provider) -> (r: Result<bool, Self::Error>)
        ensures
            r.is_ok() == old(self).can_enable(event.raw_largest_spec()),
            match r {
                Ok(was_disabled) => {
                    &&& final(self).disabled() == old(self).disabled().remove(event.raw_largest_spec())
                    &&& was_disabled == old(self).disabled().contains(event.raw_largest_spec())
                },
                Err(_) => final(self).disabled() == old(self).disabled(),
            },
    ;

    /// Puts the event among the disabled ones, where the backend can.
    /// Returns whether it was none of them.
    fn disable_event_reporting(&mut self, event: &Provider) -> (r: Result<bool, Self::Error>)
        ensures
            r.is_ok() == old(self).can_disable(event.raw_largest_spec()),
            match r {
                Ok(was_enabled) => {
                    &&& final(self).disabled() == old(self).disabled().insert(event.raw_largest_spec())
                    &&& was_enabled == !old(self).disabled().contains(event.raw_largest_spec())
                },
                Err(_) => final(self).disabled() == old(self).disabled(),
            },
    ;
}

/// The backend that keeps the disabled events in a hash set.
pub struct DefaultPusMgmtBackendProvider<Event> {
    disabled: IdSet,
    phantom: PhantomData<Event>,
}

impl<Event: GenericEvent> DefaultPusMgmtBackendProvider<Event> {
    /// A backend in which every event is enabled.
    pub fn new() -> (r: Self)
        ensures
            r.disabled() == Set::<u32>::empty(),
    {
        Self { disabled: id_set_new(), phantom: PhantomData }
    }
}

impl<Event: GenericEvent> Default for DefaultPusMgmtBackendProvider<Event> {
    fn default() -> (r: Self)
        ensures
            r.disabled() == Set::<u32>::empty(),
    {
        Self::new()
    }
}

impl<Provider: GenericEvent> PusEventMgmtBackendProvider<Provider> for DefaultPusMgmtBackendProvider<
    Provider,
> {
    type Error = ();

    closed spec fn disabled(&self) -> Set<u32> {
        crate::index_map::id_set(self.disabled)
    }

    /// This backend never fails.
    open spec fn can_enable(&self, raw: u32) -> bool {
        true
    }

    /// This backend never fails.
    open spec fn can_disable(&self, raw: u32) -> bool {
        true
    }

    fn event_enabled(&self, event: &Provider) -> (r: bool) {
        !id_set_contains(&self.disabled, event.raw_as_largest_type())
    }

    fn enable_event_reporting(&mut self, event: &Provider) -> (r: Result<bool, ()>)
        ensures
            r.is_ok(),
    {
        Ok(id_set_remove(&mut self.disabled, event.raw_as_largest_type()))
    }

    fn disable_event_reporting(&mut self, event: &Provider) -> (r: Result<bool, ()>)
        ensures
            r.is_ok(),
    {
        Ok(id_set_insert(&mut self.disabled, event.raw_as_largest_type()))
    }
}

/// The backend that keeps the disabled events in a set of the `heapless`
/// crate, with room for `N` of them. `N` has to be a power of two and more
/// than one.
pub struct HeaplessPusMgmtBckendProvider<const N: usize, Provider: GenericEvent> {
    disabled: HeaplessIdSet,
    phantom: PhantomData<Provider>,
}

impl<const N: usize, Provider: GenericEvent> HeaplessPusMgmtBckendProvider<N, Provider> {
    /// The set is the one that the backend was made with, of capacity `N`.
    #[verifier::type_invariant]
    spec fn sized(&self) -> bool {
        heapless_capacity(self.disabled) == N && heapless_id_set(self.disabled).finite()
    }

    /// A backend in which every event is enabled.
    pub fn new() -> (r: Self)
        ensures
            r.disabled() == Set::<u32>::empty(),
    {
        HeaplessPusMgmtBckendProvider { disabled: heapless_id_set_new::<N>(), phantom: PhantomData }
    }
}

impl<const N: usize, Provider: GenericEvent> Default for HeaplessPusMgmtBckendProvider<N, Provider> {
    fn default() -> (r: Self)
        ensures
            r.disabled() == Set::<u32>::empty(),
    {
        Self::new()
    }
}

impl<const N: usize, Provider: GenericEvent> PusEventMgmtBackendProvider<
    Provider,
> for HeaplessPusMgmtBckendProvider<N, Provider> {
    type Error = ();

    closed spec fn disabled(&self) -> Set<u32> {
        heapless_id_set(self.disabled)
    }

    /// An event can always be enabled.
    open spec fn can_enable(&self, raw: u32) -> bool {
        true
    }

    /// An event can be disabled where it is disabled already, or where less
    /// than `N` events are.
    open spec fn can_disable(&self, raw: u32) -> bool {
        self.disabled().contains(raw) || self.disabled().len() < N
    }

    fn event_enabled(&self, event: &Provider) -> (r: bool) {
        proof {
            use_type_invariant(self);
        }
        !heapless_id_set_contains::<N>(&self.disabled, event.raw_as_largest_type())
    }

    fn enable_event_reporting(&mut self, event: &Provider) -> (r: Result<bool, ()>) {
        proof {
            use_type_invariant(&*self);
        }
        Ok(heapless_id_set_remove::<N>(&mut self.disabled, event.raw_as_largest_type()))
    }

    fn disable_event_reporting(&mut self, event: &Provider) -> (r: Result<bool, ()>) {
        proof {
            use_type_invariant(&*self);
        }
        match heapless_id_set_insert::<N>(&mut self.disabled, event.raw_as_largest_type()) {
            Ok(fresh) => Ok(fresh),
            Err(_) => Err(()),
        }
    }
}

/// Why an event was not reported.
#[derive(Debug)]
pub enum EventManError<SenderE> {
    /// The report could not be built or sent.
    EcssTmError(EcssTmError<SenderE>),
    /// The severity that the caller named, and the other one that the event has.
    SeverityMissmatch(Severity, Severity),
}

/// The subservice that reports events of the given severity.
pub open spec fn severity_subservice(severity: Severity) -> Subservices {
    match severity {
        Severity::INFO => Subservices::TmInfoReport,
        Severity::LOW => Subservices::TmLowSeverityReport,
        Severity::MEDIUM => Subservices::TmMediumSeverityReport,
        Severity::HIGH => Subservices::TmHighSeverityReport,
    }
}

/// Reports the events that are enabled.
pub struct PusEventTmManager<B, Provider> where
    Provider: GenericEvent,
    B: PusEventMgmtBackendProvider<Provider>,
 {
    pub reporter: EventReporter,
    pub backend: B,
    pub phantom: PhantomData<Provider>,
}

impl<B, Event> PusEventTmManager<B, Event> where
    Event: GenericEvent,
    B: PusEventMgmtBackendProvider<Event>,
 {
    pub fn new(reporter: EventReporter, backend: B) -> (r: Self)
        ensures
            r.reporter == reporter,
            r.backend == backend,
    {
        Self { reporter, backend, phantom: PhantomData }
    }

    /// Enables the reporting of `event`. Returns whether it was disabled. The
    /// result is `Ok` exactly if the backend can enable the event; the
    /// backend of the default kind always can.
    pub fn enable_tm_for_event(&mut self, event: &Event) -> (r: Result<bool, B::Error>)
        ensures
            final(self).reporter == old(self).reporter,
            r.is_ok() == old(self).backend.can_enable(event.raw_largest_spec()),
            match r {
                Ok(was_disabled) => {
                    &&& final(self).backend.disabled() == old(self).backend.disabled().remove(
                        event.raw_largest_spec(),
                    )
                    &&& was_disabled == old(self).backend.disabled().contains(event.raw_largest_spec())
                },
                Err(_) => final(self).backend.disabled() == old(self).backend.disabled(),
            },
    {
        self.backend.enable_event_reporting(event)
    }

    /// Disables the reporting of `event`. Returns whether it was enabled. The
    /// result is `Ok` exactly if the backend can disable the event; the
    /// backend of the default kind always can.
    pub fn disable_tm_for_event(&mut self, event: &Event) -> (r: Result<bool, B::Error>)
        ensures
            final(self).reporter == old(self).reporter,
            r.is_ok() == old(self).backend.can_disable(event.raw_largest_spec()),
            match r {
                Ok(was_enabled) => {
                    &&& final(self).backend.disabled() == old(self).backend.disabled().insert(
                        event.raw_largest_spec(),
                    )
                    &&& was_enabled == !old(self).backend.disabled().contains(event.raw_largest_spec())
                },
                Err(_) => final(self).backend.disabled() == old(self).backend.disabled(),
            },
    {
        self.backend.disable_event_reporting(event)
    }

    /// What `generate_pus_event_tm_generic` does, given whether the sender took
    /// the report. A disabled event is not reported and the result is
    /// `Ok(false)`. An event whose severity is not the one named is refused.
    /// In both cases the sender is not asked. Else the event is reported with
    /// the subservice of its severity: the report is offered to the sender
    /// where it fits the buffer, and the result is `Ok(true)` exactly if the
    /// report was sent.
    pub open spec fn generated<E>(
        before: &Self,
        after: &Self,
        sent_before: Seq<TmModel>,
        sent_after: Seq<TmModel>,
        offered_before: Seq<TmModel>,
        offered_after: Seq<TmModel>,
        severity: Severity,
        time_stamp: Seq<u8>,
        event: Event,
        aux_data: Option<Seq<u8>>,
        r: Result<bool, EventManError<E>>,
    ) -> bool {
        let raw = event.raw_largest_spec();
        let tm = before.reporter.reporter.event_tm(
            severity_subservice(severity),
            time_stamp,
            event.raw_bytes(),
            aux_data,
        );
        &&& after.backend.disabled() == before.backend.disabled()
        &&& if before.backend.disabled().contains(raw) {
            &&& r matches Ok(false)
            &&& after.reporter == before.reporter
            &&& sent_after == sent_before
            &&& offered_after == offered_before
        } else if event.severity_spec() != severity {
            &&& r matches Err(EventManError::SeverityMissmatch(named, actual)) && named == severity
                && actual == event.severity_spec()
            &&& after.reporter == before.reporter
            &&& sent_after == sent_before
            &&& offered_after == offered_before
        } else {
            &&& EventReporter::reported(
                &before.reporter,
                &after.reporter,
                sent_before,
                sent_after,
                offered_before,
                offered_after,
                tm,
                r.is_ok(),
            )
            &&& match r {
                Ok(reported) => reported,
                Err(EventManError::EcssTmError(e)) => EventReporterBase::refusal(
                    before.reporter.source_data_buf@.len(),
                    tm,
                    e,
                ),
                Err(_) => false,
            }
        }
    }

    /// Reports `event`, whose severity the caller names, unless its reporting
    /// is disabled. See [`Self::generated`].
    pub fn generate_pus_event_tm_generic<E, V: EcssTmSender<E>>(
        &mut self,
        severity: Severity,
        sender: &mut V,
        time_stamp: &[u8],
        event: Event,
        aux_data: Option<&[u8]>,
    ) -> (r: Result<bool, EventManError<E>>)
        requires
            old(sender).usable(),
            old(self).reporter.ready(time_stamp@),
        ensures
            final(sender).usable(),
            Self::generated(
                old(self),
                final(self),
                old(sender).sent(),
                final(sender).sent(),
                old(sender).offered(),
                final(sender).offered(),
                severity,
                time_stamp@,
                event,
                crate::pus_event::opt_view(aux_data),
                r,
            ),
    {
        if !self.backend.event_enabled(&event) {
            return Ok(false);
        }
        let actual = event.severity();
        if actual != severity {
            return Err(EventManError::SeverityMissmatch(severity, actual));
        }
        let sent = match severity {
            Severity::INFO => self.reporter.event_info(sender, time_stamp, event, aux_data),
            Severity::LOW => self.reporter.event_low_severity(sender, time_stamp, event, aux_data),
            Severity::MEDIUM => self.reporter.event_medium_severity(sender, time_stamp, event, aux_data),
            Severity::HIGH => self.reporter.event_high_severity(sender, time_stamp, event, aux_data),
        };
        match sent {
            Ok(()) => Ok(true),
            Err(e) => Err(EventManError::EcssTmError(e)),
        }
    }
}

impl<B> PusEventTmManager<B, EventU32> where B: PusEventMgmtBackendProvider<EventU32> {
    /// Reports an event whose severity is part of its type, unless its
    /// reporting is disabled. See [`Self::generated`]. The severity is that of
    /// the type, so that the result is never a severity mismatch.
    pub fn generate_pus_event_tm<E, V: EcssTmSender<E>, SEVERITY: HasSeverity>(
        &mut self,
        sender: &mut V,
        time_stamp: &[u8],
        event: EventU32TypedSev<SEVERITY>,
        aux_data: Option<&[u8]>,
    ) -> (r: Result<bool, EventManError<E>>)
        requires
            old(sender).usable(),
            old(self).reporter.ready(time_stamp@),
        ensures
            final(sender).usable(),
            Self::generated(
                old(self),
                final(self),
                old(sender).sent(),
                final(sender).sent(),
                old(sender).offered(),
                final(sender).offered(),
                SEVERITY::severity_spec(),
                time_stamp@,
                event.event(),
                crate::pus_event::opt_view(aux_data),
                r,
            ),
            event.event()@.severity == SEVERITY::severity_spec(),
            !(r matches Err(EventManError::SeverityMissmatch(_, _))),
    {
        self.generate_pus_event_tm_generic(
            SEVERITY::severity(),
            sender,
            time_stamp,
            event.into_event(),
            aux_data,
        )
    }
}

} // verus!
