//! Connection diagnostics.
//!
//! A sequential, short-circuiting pipeline: parse the source address,
//! verify the decoder tool is present (and note its version), probe raw
//! transport reachability, attempt a short trial decode. Address-parse and
//! tool-presence failures abort the pipeline; a failed reachability probe
//! does not stop the trial decode. The embedding performs each probe; this
//! module decides which stage runs next, records outcomes, and derives the
//! recommendations of the final report.

use vstd::prelude::*;

verus! {

/// The diagnostic stage to run next, or `Done` when the pipeline is over.
#[derive(Clone, Copy, Debug, PartialEq, Eq, Structural)]
pub enum DiagStage {
    /// Parse the source address.
    ParseAddress,
    /// Verify the decoder tool is present and report its version.
    CheckTool,
    /// Probe raw transport reachability with a bounded timeout.
    ProbeTransport,
    /// Attempt a single trial decode with a bounded timeout.
    TrialDecode,
    /// Nothing left to run: the report can be produced.
    Done,
}

/// A free-text recommendation derived from which stages failed.
#[derive(Clone, Copy, Debug, PartialEq, Eq, Structural)]
pub enum Recommendation {
    /// The source address did not parse.
    FixSourceAddress,
    /// The decoder tool is missing.
    InstallDecoder,
    /// The transport probe failed: check the network path to the source.
    CheckNetworkPath,
    /// The trial decode failed: check credentials, path and stream setup.
    CheckStreamSetup,
}

impl Recommendation {
    /// The human-readable text of this recommendation.
    pub fn message(&self) -> (m: &'static str)
        ensures
            *self == Recommendation::FixSourceAddress ==> m@ == "check the source address"@,
            *self == Recommendation::InstallDecoder ==> m@ == "install the decoder tool"@,
            *self == Recommendation::CheckNetworkPath ==> m@
                == "check the network path to the source"@,
            *self == Recommendation::CheckStreamSetup ==> m@
                == "check credentials, path and stream setup"@,
    {
        match self {
            Recommendation::FixSourceAddress => "check the source address",
            Recommendation::InstallDecoder => "install the decoder tool",
            Recommendation::CheckNetworkPath => "check the network path to the source",
            Recommendation::CheckStreamSetup => "check credentials, path and stream setup",
        }
    }
}

/// The recommendations a finished pipeline derives: one per failed stage,
/// in pipeline order; stages that did not run contribute nothing.
pub open spec fn spec_recommendations(
    address_ok: Option<bool>,
    tool_present: Option<bool>,
    reachable: Option<bool>,
    decode_ok: Option<bool>,
) -> Seq<Recommendation> {
    (if address_ok == Some(false) {
        seq![Recommendation::FixSourceAddress]
    } else {
        Seq::empty()
    }) + (if tool_present == Some(false) {
        seq![Recommendation::InstallDecoder]
    } else {
        Seq::empty()
    }) + (if reachable == Some(false) {
        seq![Recommendation::CheckNetworkPath]
    } else {
        Seq::empty()
    }) + (if decode_ok == Some(false) {
        seq![Recommendation::CheckStreamSetup]
    } else {
        Seq::empty()
    })
}

/// Point-in-time record of a finished diagnostics run. Immutable once
/// produced; not persisted. `None` marks a stage the pipeline never ran.
pub struct DiagnosticReport {
    /// Whether the source address parsed.
    pub address_ok: Option<bool>,
    /// Whether the decoder tool was found.
    pub tool_present: Option<bool>,
    /// The decoder tool's reported version, when one was read.
    pub tool_version: Option<String>,
    /// Whether the raw transport probe reached the source.
    pub transport_reachable: Option<bool>,
    /// Whether the trial decode produced a stream.
    pub trial_decode_ok: Option<bool>,
    /// Recommendations derived from the failed stages, in pipeline order.
    pub recommendations: Vec<Recommendation>,
}

/// The diagnostics pipeline in progress: records each stage's outcome and
/// decides which stage runs next.
pub struct DiagnosticsPipeline {
    address_ok: Option<bool>,
    tool_present: Option<bool>,
    tool_version: Option<String>,
    reachable: Option<bool>,
    decode_ok: Option<bool>,
}

impl DiagnosticsPipeline {
    /// Recorded address-parse outcome.
    pub closed spec fn spec_address_ok(&self) -> Option<bool> {
        self.address_ok
    }

    /// Recorded tool-presence outcome.
    pub closed spec fn spec_tool_present(&self) -> Option<bool> {
        self.tool_present
    }

    /// Recorded tool version.
    pub closed spec fn spec_tool_version(&self) -> Option<String> {
        self.tool_version
    }

    /// Recorded reachability outcome.
    pub closed spec fn spec_reachable(&self) -> Option<bool> {
        self.reachable
    }

    /// Recorded trial-decode outcome.
    pub closed spec fn spec_decode_ok(&self) -> Option<bool> {
        self.decode_ok
    }

    /// The stage to run next: stages run in order; a failed address parse
    /// or a missing tool aborts the pipeline; a failed reachability probe
    /// still lets the trial decode run.
    pub open spec fn spec_next_stage(&self) -> DiagStage {
        if self.spec_address_ok() is None {
            DiagStage::ParseAddress
        } else if self.spec_address_ok() == Some(false) {
            DiagStage::Done
        } else if self.spec_tool_present() is None {
            DiagStage::CheckTool
        } else if self.spec_tool_present() == Some(false) {
            DiagStage::Done
        } else if self.spec_reachable() is None {
            DiagStage::ProbeTransport
        } else if self.spec_decode_ok() is None {
            DiagStage::TrialDecode
        } else {
            DiagStage::Done
        }
    }

    /// A pipeline with nothing recorded yet.
    pub fn new() -> (r: DiagnosticsPipeline)
        ensures
            r.spec_next_stage() == DiagStage::ParseAddress,
            r.spec_address_ok() is None,
            r.spec_tool_present() is None,
            r.spec_tool_version() is None,
            r.spec_reachable() is None,
            r.spec_decode_ok() is None,
    {
        DiagnosticsPipeline {
            address_ok: None,
            tool_present: None,
            tool_version: None,
            reachable: None,
            decode_ok: None,
        }
    }

    /// The stage to run next.
    pub fn next_stage(&self) -> (s: DiagStage)
        ensures
            s == self.spec_next_stage(),
    {
        if self.address_ok.is_none() {
            DiagStage::ParseAddress
        } else if matches!(self.address_ok, Some(false)) {
            DiagStage::Done
        } else if self.tool_present.is_none() {
            DiagStage::CheckTool
        } else if matches!(self.tool_present, Some(false)) {
            DiagStage::Done
        } else if self.reachable.is_none() {
            DiagStage::ProbeTransport
        } else if self.decode_ok.is_none() {
            DiagStage::TrialDecode
        } else {
            DiagStage::Done
        }
    }

    /// Records whether the source address parsed.
    pub fn record_address(&mut self, ok: bool)
        requires
            old(self).spec_next_stage() == DiagStage::ParseAddress,
        ensures
            final(self).spec_address_ok() == Some(ok),
            final(self).spec_tool_present() == old(self).spec_tool_present(),
            final(self).spec_tool_version() == old(self).spec_tool_version(),
            final(self).spec_reachable() == old(self).spec_reachable(),
            final(self).spec_decode_ok() == old(self).spec_decode_ok(),
    {
        self.address_ok = Some(ok);
    }

    /// Records whether the decoder tool is present, and its version text
    /// when one was read.
    pub fn record_tool(&mut self, present: bool, version: Option<String>)
        requires
            old(self).spec_next_stage() == DiagStage::CheckTool,
        ensures
            final(self).spec_tool_present() == Some(present),
            final(self).spec_tool_version() == version,
            final(self).spec_address_ok() == old(self).spec_address_ok(),
            final(self).spec_reachable() == old(self).spec_reachable(),
            final(self).spec_decode_ok() == old(self).spec_decode_ok(),
    {
        self.tool_present = Some(present);
        self.tool_version = version;
    }

    /// Records the raw transport probe's outcome.
    pub fn record_probe(&mut self, ok: bool)
        requires
            old(self).spec_next_stage() == DiagStage::ProbeTransport,
        ensures
            final(self).spec_reachable() == Some(ok),
            final(self).spec_address_ok() == old(self).spec_address_ok(),
            final(self).spec_tool_present() == old(self).spec_tool_present(),
            final(self).spec_tool_version() == old(self).spec_tool_version(),
            final(self).spec_decode_ok() == old(self).spec_decode_ok(),
    {
        self.reachable = Some(ok);
    }

    /// Records the trial decode's outcome.
    pub fn record_trial(&mut self, ok: bool)
        requires
            old(self).spec_next_stage() == DiagStage::TrialDecode,
        ensures
            final(self).spec_decode_ok() == Some(ok),
            final(self).spec_address_ok() == old(self).spec_address_ok(),
            final(self).spec_tool_present() == old(self).spec_tool_present(),
            final(self).spec_tool_version() == old(self).spec_tool_version(),
            final(self).spec_reachable() == old(self).spec_reachable(),
    {
        self.decode_ok = Some(ok);
    }

    /// Produces the final report: each stage's recorded outcome, and one
    /// recommendation per failed stage, in pipeline order.
    pub fn report(self) -> (r: DiagnosticReport)
        requires
            self.spec_next_stage() == DiagStage::Done,
        ensures
            r.address_ok == self.spec_address_ok(),
            r.tool_present == self.spec_tool_present(),
            r.tool_version == self.spec_tool_version(),
            r.transport_reachable == self.spec_reachable(),
            r.trial_decode_ok == self.spec_decode_ok(),
            r.recommendations@ == spec_recommendations(
                self.spec_address_ok(),
                self.spec_tool_present(),
                self.spec_reachable(),
                self.spec_decode_ok(),
            ),
    {
        let mut recommendations: Vec<Recommendation> = Vec::new();
        if matches!(self.address_ok, Some(false)) {
            recommendations.push(Recommendation::FixSourceAddress);
        }
        if matches!(self.tool_present, Some(false)) {
            recommendations.push(Recommendation::InstallDecoder);
        }
        if matches!(self.reachable, Some(false)) {
            recommendations.push(Recommendation::CheckNetworkPath);
        }
        if matches!(self.decode_ok, Some(false)) {
            recommendations.push(Recommendation::CheckStreamSetup);
        }
        proof {
            assert(recommendations@ =~= spec_recommendations(
                self.spec_address_ok(),
                self.spec_tool_present(),
                self.spec_reachable(),
                self.spec_decode_ok(),
            ));
        }
        DiagnosticReport {
            address_ok: self.address_ok,
            tool_present: self.tool_present,
            tool_version: self.tool_version,
            transport_reachable: self.reachable,
            trial_decode_ok: self.decode_ok,
            recommendations,
        }
    }
}

} // verus!
