//! Help with the building of telemetry whose time stamp is a short day
//! segmented time code.
use crate::spacepackets::{SpHeader, MAX_APID, MAX_SEQ_COUNT};
use crate::time::{StdTimestampError, TimeProvider};
use crate::tm::{PusTm, PusTmSecondaryHeader, TmModel};
use vstd::prelude::*;

verus! {

/// Builds telemetry of one APID.
pub struct PusTmWithCdsShortHelper {
    apid: u16,
    cds_short_buf: [u8; 7],
}

/// The telemetry that the helper builds: the given fields, message counter
/// and destination 0, and a data length field that fits.
pub open spec fn helper_tm(
    apid: u16,
    service: u8,
    subservice: u8,
    source_data: Option<Seq<u8>>,
    time_stamp: Seq<u8>,
    seq_count: u16,
) -> TmModel {
    let tm = crate::tm::report_tm(
        apid,
        service,
        subservice,
        0,
        0,
        time_stamp,
        crate::verification::opt_bytes(source_data),
    );
    TmModel {
        sp_header: SpHeader {
            psc: crate::spacepackets::PacketSequenceCtrl { seq_count, ..tm.sp_header.psc },
            ..tm.sp_header
        },
        ..tm
    }
}

impl PusTmWithCdsShortHelper {
    pub closed spec fn apid(&self) -> u16 {
        self.apid
    }

    /// The time stamp that was written last.
    pub closed spec fn stamp(&self) -> Seq<u8> {
        self.cds_short_buf@
    }

    pub fn new(apid: u16) -> (r: Self)
        ensures
            r.apid() == apid,
            r.stamp() == Seq::new(7, |i: int| 0u8),
    {
        let r = Self { apid, cds_short_buf: [0u8, 0, 0, 0, 0, 0, 0] };
        assert(r.cds_short_buf@ =~= Seq::new(7, |i: int| 0u8));
        r
    }

    /// Telemetry with the current time as time stamp, as
    /// [`Self::create_pus_tm_with_stamper`] makes it for a time that is
    /// given. `None` where the APID has more than 11 bits or the sequence
    /// count more than 14. Where the time cannot be had, the time stamp of the
    /// helper stays.
    pub fn create_pus_tm_timestamp_now(
        &mut self,
        service: u8,
        subservice: u8,
        source_data: Option<&[u8]>,
        seq_count: u16,
    ) -> (r: Result<Option<PusTm>, StdTimestampError>)
        requires
            crate::tm::PUS_TM_MIN_LEN + 7 + (match source_data {
                Some(d) => d@.len(),
                None => 0,
            }) <= usize::MAX,
        ensures
            final(self).apid() == old(self).apid(),
            match r {
                Ok(Some(tm)) => tm.wf() && tm@ == helper_tm(
                    old(self).apid(),
                    service,
                    subservice,
                    crate::pus_event::opt_view(source_data),
                    final(self).stamp(),
                    seq_count,
                ),
                Ok(None) => old(self).apid() > MAX_APID || seq_count > MAX_SEQ_COUNT,
                Err(_) => final(self).stamp() == old(self).stamp(),
            },
            r.is_ok() ==> crate::pus_service::clock_stamp(final(self).stamp()),
    {
        match TimeProvider::from_now_with_u16_days() {
            Ok(time_stamp) => Ok(
                self.create_pus_tm_with_stamper(service, subservice, source_data, &time_stamp, seq_count),
            ),
            Err(e) => Err(e),
        }
    }

    /// Telemetry with the time of `stamper` as time stamp. `None` where the
    /// APID has more than 11 bits or the sequence count more than 14.
    pub fn create_pus_tm_with_stamper(
        &mut self,
        service: u8,
        subservice: u8,
        source_data: Option<&[u8]>,
        stamper: &TimeProvider,
        seq_count: u16,
    ) -> (r: Option<PusTm>)
        requires
            crate::tm::PUS_TM_MIN_LEN + 7 + (match source_data {
                Some(d) => d@.len(),
                None => 0,
            }) <= usize::MAX,
        ensures
            final(self).apid() == old(self).apid(),
            final(self).stamp() == stamper.bytes(),
            match r {
                Some(tm) => tm.wf() && tm@ == helper_tm(
                    old(self).apid(),
                    service,
                    subservice,
                    crate::pus_event::opt_view(source_data),
                    stamper.bytes(),
                    seq_count,
                ),
                None => old(self).apid() > MAX_APID || seq_count > MAX_SEQ_COUNT,
            },
    {
        let mut buf = [0u8, 0, 0, 0, 0, 0, 0];
        let written = stamper.write_to_bytes(&mut buf);
        self.cds_short_buf = buf;
        assert(self.cds_short_buf@ =~= stamper.bytes());
        self.create_pus_tm_common(service, subservice, source_data, seq_count)
    }

    fn create_pus_tm_common(
        &self,
        service: u8,
        subservice: u8,
        source_data: Option<&[u8]>,
        seq_count: u16,
    ) -> (r: Option<PusTm>)
        requires
            crate::tm::PUS_TM_MIN_LEN + 7 + (match source_data {
                Some(d) => d@.len(),
                None => 0,
            }) <= usize::MAX,
        ensures
            match r {
                Some(tm) => tm.wf() && tm@ == helper_tm(
                    self.apid(),
                    service,
                    subservice,
                    crate::pus_event::opt_view(source_data),
                    self.stamp(),
                    seq_count,
                ),
                None => self.apid() > MAX_APID || seq_count > MAX_SEQ_COUNT,
            },
    {
        let mut reply_header = SpHeader::tm(self.apid, seq_count, 0)?;
        let tc_header = PusTmSecondaryHeader::new_simple(service, subservice, &self.cds_short_buf);
        let tm = PusTm::new(&mut reply_header, tc_header, source_data, true);
        proof {
            match source_data {
                Some(d) => {},
                None => {
                    assert(tm@.source_data =~= Seq::<u8>::empty());
                },
            }
        }
        Some(tm)
    }
}

} // verus!
