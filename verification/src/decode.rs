//! What the packer printed, from bytes to text.

use crate::text::{chars_of, cut, lines_of, run_end};
use vstd::prelude::*;

verus! {

/// The text that `bytes` stand for in the GBK encoding, as the decoder of
/// `encoding_rs` reads them: a byte order mark at the start selects UTF-8 or
/// UTF-16 instead and is left out, and what cannot be read becomes U+FFFD.
pub uninterp spec fn gbk_decoded(bytes: Seq<u8>) -> Seq<char>;

/// Whether `bytes` are few enough for the decoder to size its buffer.
pub open spec fn decodable(bytes: Seq<u8>) -> bool {
    bytes.len() <= usize::MAX / 16
}

/// What a run of the packer left behind, as the operating system hands it
/// over.
#[derive(Debug, PartialEq, Eq)]
pub struct RawOutput {
    pub stdout: Vec<u8>,
    pub stderr: Vec<u8>,
    pub success: bool,
}

/// What a run of the packer left behind, as text.
#[derive(Debug, PartialEq, Eq)]
pub struct RawExecutionResult {
    pub decoded_stdout: String,
    pub decoded_stderr: String,
    pub exit_success: bool,
}

impl RawOutput {
    /// Whether both streams can be decoded.
    pub open spec fn decodable(&self) -> bool {
        decodable(self.stdout@) && decodable(self.stderr@)
    }

    /// Tells whether both streams can be decoded.
    pub fn is_decodable(&self) -> (b: bool)
        ensures
            b == self.decodable(),
    {
        is_decodable(self.stdout.as_slice()) && is_decodable(self.stderr.as_slice())
    }

    /// The two streams as text.
    pub fn decode(&self) -> (result: RawExecutionResult)
        requires
            self.decodable(),
        ensures
            result.decoded_stdout@ == gbk_decoded(self.stdout@),
            result.decoded_stderr@ == gbk_decoded(self.stderr@),
            result.exit_success == self.success,
    {
        RawExecutionResult {
            decoded_stdout: decode_gbk(self.stdout.as_slice()),
            decoded_stderr: decode_gbk(self.stderr.as_slice()),
            exit_success: self.success,
        }
    }
}

/// Tells whether `bytes` are few enough to be decoded.
pub fn is_decodable(bytes: &[u8]) -> (b: bool)
    ensures
        b == decodable(bytes@),
{
    bytes.len() <= usize::MAX / 16
}

/// Calls `encoding_rs::Encoding::decode` on `encoding_rs::GBK` and keeps the
/// text. Nothing is proved of it: the contract says that the text depends on
/// the bytes alone, and calls it `gbk_decoded`. The decoder panics where the
/// size of its buffer does not fit in `usize`, which `requires` leaves out.
#[verifier::external_body]
fn decode_gbk(bytes: &[u8]) -> (text: String)
    requires
        decodable(bytes@),
    ensures
        text@ == gbk_decoded(bytes@),
{
    let (text, _, _) = encoding_rs::GBK.decode(bytes);
    text.into_owned()
}

/// The first line of `text`, if it has one.
pub fn first_line(text: &str) -> (line: Option<String>)
    ensures
        match line {
            Some(l) => lines_of(text@).len() > 0 && l@ == lines_of(text@)[0],
            None => lines_of(text@).len() == 0,
        },
{
    let chars = chars_of(text);
    let s = chars.as_slice();
    if s.len() == 0 {
        return None;
    }
    assert(s@.skip(0) == s@);
    let end = run_end(s, 0, '\n');
    let stop: usize = if end < s.len() && end > 0 && s[end - 1] == '\r' {
        end - 1
    } else {
        end
    };
    Some(String::from_str(cut(text, 0, stop)))
}

/// How asking the packer for its version ended.
#[derive(Debug, PartialEq, Eq)]
pub enum VersionProbe {
    /// The packer was not found.
    NoTool,
    /// The packer could not be started.
    NotStarted,
    /// The packer ran; what it printed.
    Printed(Vec<u8>),
}

/// The version of the packer as it prints it, from a text: its first line.
pub open spec fn version_of(text: Seq<char>) -> Result<Seq<char>, Seq<char>> {
    if lines_of(text).len() > 0 {
        Ok(lines_of(text)[0])
    } else {
        Err("无法获取UPX版本"@)
    }
}

/// The version of the packer, from how asking for it ended.
pub open spec fn version_answer(probe: VersionProbe) -> Result<Seq<char>, Seq<char>> {
    match probe {
        VersionProbe::NoTool => Err("未找到 UPX 工具！"@),
        VersionProbe::NotStarted => Err("UPX未找到"@),
        VersionProbe::Printed(bytes) => version_of(gbk_decoded(bytes@)),
    }
}

/// The contents of a result that holds strings.
pub open spec fn result_text(r: Result<String, String>) -> Result<Seq<char>, Seq<char>> {
    match r {
        Ok(s) => Ok(s@),
        Err(e) => Err(e@),
    }
}

/// The version of the packer, from the text that it printed.
pub fn version_line(text: &str) -> (version: Result<String, String>)
    ensures
        result_text(version) == version_of(text@),
{
    match first_line(text) {
        Some(line) => Ok(line),
        None => Err(String::from_str("无法获取UPX版本")),
    }
}

/// The version of the packer: the first line of what it printed, or why
/// there is none.
pub fn get_upx_version(probe: &VersionProbe) -> (version: Result<String, String>)
    requires
        probe matches VersionProbe::Printed(bytes) ==> decodable(bytes@),
    ensures
        result_text(version) == version_answer(*probe),
{
    match probe {
        VersionProbe::NoTool => Err(String::from_str("未找到 UPX 工具！")),
        VersionProbe::NotStarted => Err(String::from_str("UPX未找到")),
        VersionProbe::Printed(bytes) => {
            let text = decode_gbk(bytes.as_slice());
            version_line(text.as_str())
        },
    }
}

} // verus!
