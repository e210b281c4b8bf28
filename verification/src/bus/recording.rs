//! An in-memory bus that records every transaction it is asked to perform.
//!
//! It implements the full [`DisplayBus`] contract and never fails, so it
//! serves both as the executable witness that the bus traits are
//! implementable and as the observation point for tests.

use vstd::prelude::*;

use crate::DisplayError;
use crate::bus::{BusRead, BusTx, DisplayBus, ErrorType, Metadata, lemma_map_values_push};

verus! {

/// One recorded transaction, the executable mirror of [`BusTx`].
#[derive(Debug, Clone, PartialEq, Eq)]
pub enum RecordedTx {
    /// A bare command.
    Cmd { cmd: Vec<u8> },
    /// A command followed atomically by its parameter bytes.
    CmdWithParams { cmd: Vec<u8>, params: Vec<u8> },
    /// A pixel-data write with its side-band metadata.
    Pixels { cmd: Vec<u8>, data: Vec<u8>, meta: Metadata },
    /// The reset line driven to a level.
    SetReset { level: bool },
    /// A read request issued with a command and parameters.
    Read { cmd: Vec<u8>, params: Vec<u8> },
}

impl View for RecordedTx {
    type V = BusTx;

    open spec fn view(&self) -> BusTx {
        match self {
            RecordedTx::Cmd { cmd } => BusTx::Cmd { cmd: cmd@ },
            RecordedTx::CmdWithParams { cmd, params } => BusTx::CmdWithParams {
                cmd: cmd@,
                params: params@,
            },
            RecordedTx::Pixels { cmd, data, meta } => BusTx::Pixels {
                cmd: cmd@,
                data: data@,
                meta: *meta,
            },
            RecordedTx::SetReset { level } => BusTx::SetReset { level: *level },
            RecordedTx::Read { cmd, params } => BusTx::Read { cmd: cmd@, params: params@ },
        }
    }
}

/// A bus that stores every transaction instead of driving hardware.
pub struct RecordingBus {
    /// The transactions performed so far, oldest first.
    pub txs: Vec<RecordedTx>,
}

impl RecordingBus {
    /// Creates an empty recording bus.
    pub fn new() -> (r: RecordingBus)
        ensures
            r.log() == Seq::<BusTx>::empty(),
            r.txs@.len() == 0,
    {
        let r = RecordingBus { txs: Vec::new() };
        proof {
            assert(r.txs@.map_values(|t: RecordedTx| t@) =~= Seq::<BusTx>::empty());
        }
        r
    }

    /// Number of recorded transactions.
    pub fn len(&self) -> (r: usize)
        ensures
            r == self.log().len(),
    {
        self.txs.len()
    }

    #[verifier::inline]
    pub open spec fn spec_log(&self) -> Seq<BusTx> {
        self.txs@.map_values(|t: RecordedTx| t@)
    }

    proof fn push_log(&self, pre: Seq<RecordedTx>, t: RecordedTx)
        ensures
            pre.push(t).map_values(|x: RecordedTx| x@) == pre.map_values(|x: RecordedTx| x@).push(
                t@,
            ),
    {
        lemma_map_values_push(pre, |x: RecordedTx| x@, t);
    }
}

impl ErrorType for RecordingBus {
    type Error = ();
}

impl DisplayBus for RecordingBus {
    open spec fn log(&self) -> Seq<BusTx> {
        self.spec_log()
    }

    open spec fn spec_cmd_ok(cmd: Seq<u8>) -> bool {
        true
    }

    open spec fn spec_reset_supported() -> bool {
        true
    }

    fn write_cmd(&mut self, cmd: &[u8]) -> (r: Result<(), Self::Error>) {
        let t = RecordedTx::Cmd { cmd: vstd::slice::slice_to_vec(cmd) };
        proof {
            self.push_log(self.txs@, t);
        }
        self.txs.push(t);
        Ok(())
    }

    fn write_cmd_with_params(&mut self, cmd: &[u8], params: &[u8]) -> (r: Result<
        (),
        Self::Error,
    >) {
        let t = RecordedTx::CmdWithParams {
            cmd: vstd::slice::slice_to_vec(cmd),
            params: vstd::slice::slice_to_vec(params),
        };
        proof {
            self.push_log(self.txs@, t);
        }
        self.txs.push(t);
        Ok(())
    }

    fn write_pixels(&mut self, cmd: &[u8], data: &[u8], metadata: Metadata) -> (r: Result<
        (),
        DisplayError<Self::Error>,
    >) {
        let t = RecordedTx::Pixels {
            cmd: vstd::slice::slice_to_vec(cmd),
            data: vstd::slice::slice_to_vec(data),
            meta: metadata,
        };
        proof {
            self.push_log(self.txs@, t);
            crate::bus::lemma_prefix_refl(self.spec_log());
            crate::bus::lemma_prefix_push(self.spec_log(), self.spec_log(), t@);
        }
        self.txs.push(t);
        Ok(())
    }

    fn set_reset(&mut self, reset: bool) -> (r: Result<(), DisplayError<Self::Error>>) {
        let t = RecordedTx::SetReset { level: reset };
        proof {
            self.push_log(self.txs@, t);
        }
        self.txs.push(t);
        Ok(())
    }
}

impl BusRead for RecordingBus {
    fn read_data(&mut self, cmd: &[u8], params: &[u8], buffer: &mut Vec<u8>) -> (r: Result<
        (),
        DisplayError<Self::Error>,
    >) {
        let t = RecordedTx::Read {
            cmd: vstd::slice::slice_to_vec(cmd),
            params: vstd::slice::slice_to_vec(params),
        };
        proof {
            self.push_log(self.txs@, t);
        }
        self.txs.push(t);
        Ok(())
    }
}

} // verus!
