//! Where the packer is looked for, and in which order.

use vstd::prelude::*;

verus! {

/// Where the packer lies below the directory of an installed program.
pub const INSTALLED_TOOL: &'static str = "_up_/upx/upx.exe";

/// Where the packer lies when the program runs from its source tree.
pub const DEVELOPMENT_TOOL: &'static str = "../upx/upx.exe";

/// The directory below the system's temporary directory that the packer is
/// unpacked to.
pub const PORTABLE_DIR: &'static str = "upx-gui-portable";

/// The file name of the packer.
pub const TOOL_FILE: &'static str = "upx.exe";

/// Where a packer was found.
#[derive(Clone, Copy, Debug, PartialEq, Eq, Structural)]
pub enum ToolSource {
    /// Below the directory of the running program.
    Installed,
    /// In the source tree.
    Development,
    /// Unpacked from the copy that the program carries.
    Extracted,
}

/// What is known of the places so far. Each field is `None` until the place
/// has been looked at.
#[derive(Clone, Copy, Debug, PartialEq, Eq, Structural)]
pub struct LocateFacts {
    /// Whether a packer lies below the directory of the running program.
    pub installed: Option<bool>,
    /// Whether a packer lies in the source tree.
    pub development: Option<bool>,
    /// Whether the carried copy could be unpacked.
    pub extracted: Option<bool>,
}

/// What to do next to find the packer.
#[derive(Clone, Copy, Debug, PartialEq, Eq, Structural)]
pub enum LocateStep {
    ProbeInstalled,
    ProbeDevelopment,
    Extract,
    Found(ToolSource),
    NotFound,
}

/// What is known of unpacking the carried copy so far.
#[derive(Clone, Copy, Debug, PartialEq, Eq, Structural)]
pub struct ExtractFacts {
    /// Whether the directory could be made.
    pub directory_made: Option<bool>,
    /// The length of the file that lies at the target already; `Some(None)`
    /// where none lies there or its length could not be read.
    pub existing_len: Option<Option<u64>>,
    /// Whether the copy could be written.
    pub written: Option<bool>,
}

/// What to do next to unpack the carried copy.
#[derive(Clone, Copy, Debug, PartialEq, Eq, Structural)]
pub enum ExtractStep {
    MakeDirectory,
    MeasureExisting,
    Write,
    Ready,
    Failed,
}

/// What to do next to find the packer: the first place that holds one wins,
/// in the order installed, development, unpacked.
pub open spec fn next_locate(facts: LocateFacts) -> LocateStep {
    match facts.installed {
        None => LocateStep::ProbeInstalled,
        Some(true) => LocateStep::Found(ToolSource::Installed),
        Some(false) => match facts.development {
            None => LocateStep::ProbeDevelopment,
            Some(true) => LocateStep::Found(ToolSource::Development),
            Some(false) => match facts.extracted {
                None => LocateStep::Extract,
                Some(true) => LocateStep::Found(ToolSource::Extracted),
                Some(false) => LocateStep::NotFound,
            },
        },
    }
}

/// What to do next to unpack a copy of `payload_len` bytes: a file of that
/// very length at the target is taken as it is; any other, or none, is
/// written anew.
pub open spec fn next_extract(payload_len: u64, facts: ExtractFacts) -> ExtractStep {
    match facts.directory_made {
        None => ExtractStep::MakeDirectory,
        Some(false) => ExtractStep::Failed,
        Some(true) => match facts.existing_len {
            None => ExtractStep::MeasureExisting,
            Some(existing) => if existing == Some(payload_len) {
                ExtractStep::Ready
            } else {
                match facts.written {
                    None => ExtractStep::Write,
                    Some(true) => ExtractStep::Ready,
                    Some(false) => ExtractStep::Failed,
                }
            },
        },
    }
}

impl LocateFacts {
    /// Nothing is known yet.
    pub fn new() -> (facts: LocateFacts)
        ensures
            facts == (LocateFacts { installed: None, development: None, extracted: None }),
    {
        LocateFacts { installed: None, development: None, extracted: None }
    }
}

impl ExtractFacts {
    /// Nothing is known yet.
    pub fn new() -> (facts: ExtractFacts)
        ensures
            facts == (ExtractFacts { directory_made: None, existing_len: None, written: None }),
    {
        ExtractFacts { directory_made: None, existing_len: None, written: None }
    }
}

/// Where the carried copy of the packer was unpacked to, kept for as long as
/// the process lives: the first outcome that is stored stays, also where it
/// says that unpacking failed. `P` is the type of a path.
pub struct ToolLocation<P> {
    resolved: Option<Option<P>>,
}

impl<P> ToolLocation<P> {
    /// What is kept: `None` until an outcome was stored; then the path, or
    /// `Some(None)` where unpacking failed.
    pub closed spec fn outcome(&self) -> Option<Option<P>> {
        self.resolved
    }

    /// Nothing is kept yet.
    pub fn new() -> (location: ToolLocation<P>)
        ensures
            location.outcome() is None,
    {
        ToolLocation { resolved: None }
    }

    /// Tells whether an outcome was stored.
    pub fn is_resolved(&self) -> (b: bool)
        ensures
            b == self.outcome() is Some,
    {
        self.resolved.is_some()
    }

    /// Stores the outcome of unpacking, unless one is kept already.
    pub fn resolve(&mut self, found: Option<P>)
        ensures
            final(self).outcome() == match old(self).outcome() {
                Some(kept) => Some(kept),
                None => Some(found),
            },
    {
        if self.resolved.is_none() {
            self.resolved = Some(found);
        }
    }

    /// The path that is kept, if there is one.
    pub fn path(&self) -> (path: Option<&P>)
        ensures
            match path {
                Some(p) => self.outcome() == Some(Some(*p)),
                None => self.outcome() is None || self.outcome() == Some(None::<P>),
            },
    {
        match &self.resolved {
            Some(Some(path)) => Some(path),
            _ => None,
        }
    }
}

/// What to do next to find the packer.
pub fn get_upx_path(facts: &LocateFacts) -> (step: LocateStep)
    ensures
        step == next_locate(*facts),
{
    match facts.installed {
        None => LocateStep::ProbeInstalled,
        Some(true) => LocateStep::Found(ToolSource::Installed),
        Some(false) => match facts.development {
            None => LocateStep::ProbeDevelopment,
            Some(true) => LocateStep::Found(ToolSource::Development),
            Some(false) => match facts.extracted {
                None => LocateStep::Extract,
                Some(true) => LocateStep::Found(ToolSource::Extracted),
                Some(false) => LocateStep::NotFound,
            },
        },
    }
}

/// What to do next to unpack the carried copy of `payload_len` bytes.
pub fn extract_embedded_upx(payload_len: u64, facts: &ExtractFacts) -> (step: ExtractStep)
    ensures
        step == next_extract(payload_len, *facts),
{
    match facts.directory_made {
        None => ExtractStep::MakeDirectory,
        Some(false) => ExtractStep::Failed,
        Some(true) => match facts.existing_len {
            None => ExtractStep::MeasureExisting,
            Some(Some(len)) if len == payload_len => ExtractStep::Ready,
            Some(_) => match facts.written {
                None => ExtractStep::Write,
                Some(true) => ExtractStep::Ready,
                Some(false) => ExtractStep::Failed,
            },
        },
    }
}

/// A packer that lies where an installed program keeps it is taken whatever
/// else is known, and the carried copy is unpacked only after both other
/// places were found empty.
pub proof fn lemma_first_place_wins(facts: LocateFacts)
    ensures
        facts.installed == Some(true) ==> next_locate(facts) == LocateStep::Found(
            ToolSource::Installed,
        ),
        facts.installed == Some(false) && facts.development == Some(true) ==> next_locate(facts)
            == LocateStep::Found(ToolSource::Development),
        next_locate(facts) == LocateStep::Extract ==> facts.installed == Some(false)
            && facts.development == Some(false),
        next_locate(facts) == LocateStep::Found(ToolSource::Extracted) ==> facts.installed == Some(
            false,
        ) && facts.development == Some(false),
{
}

/// A file of the payload's length is never written over, and nothing is
/// written before the directory is there.
pub proof fn lemma_same_length_is_kept(payload_len: u64, facts: ExtractFacts)
    ensures
        facts.directory_made == Some(true) && facts.existing_len == Some(Some(payload_len))
            ==> next_extract(payload_len, facts) == ExtractStep::Ready,
        next_extract(payload_len, facts) == ExtractStep::Write ==> facts.directory_made == Some(
            true,
        ) && facts.existing_len is Some && facts.existing_len != Some(Some(payload_len)),
{
}

/// Every step but the last looks at something that is not known yet.
pub proof fn lemma_locating_goes_on(facts: LocateFacts, payload_len: u64, unpacking: ExtractFacts)
    ensures
        match next_locate(facts) {
            LocateStep::ProbeInstalled => facts.installed is None,
            LocateStep::ProbeDevelopment => facts.development is None,
            LocateStep::Extract => facts.extracted is None,
            _ => true,
        },
        match next_extract(payload_len, unpacking) {
            ExtractStep::MakeDirectory => unpacking.directory_made is None,
            ExtractStep::MeasureExisting => unpacking.existing_len is None,
            ExtractStep::Write => unpacking.written is None,
            _ => true,
        },
{
}

} // verus!
