//! Planning and judging a download: which links are refused, what the file
//! is called, where it lands, and what the transfer came to.
//!
//! Nothing here touches the network or the disk. A plan that is refused costs
//! no request; a plan that is made tells the caller what to fetch and where to
//! write it. The caller looks up the download directory, carries the transfer
//! out and hands back how it ended.

use vstd::prelude::*;
use vstd::utf8::{decode_utf8, encode_utf8, valid_utf8};
use crate::error::{ClientError, Failure, Operation, UrlProblem};
use crate::file_manager::{file_reveal, reveal_after_download, Opened, RevealState};
use crate::platform::{invocation, join_path, Platform};
use crate::text::{has_prefix, same_text, text};

verus! {

/// The blank page that a link field holds where there is no link.
pub open spec fn placeholder_url() -> Seq<char> {
    "about:blank"@
}

/// Whether a link begins with one of the two schemes that can be downloaded.
pub open spec fn has_web_scheme(url: Seq<char>) -> bool {
    "http://"@.is_prefix_of(url) || "https://"@.is_prefix_of(url)
}

/// Why a link is refused, or `None` for a link that is accepted.
pub open spec fn url_problem(url: Seq<char>) -> Option<UrlProblem> {
    if url.len() == 0 {
        Some(UrlProblem::Empty)
    } else if url == placeholder_url() {
        Some(UrlProblem::Placeholder)
    } else if !has_web_scheme(url) {
        Some(UrlProblem::UnsupportedScheme)
    } else {
        None
    }
}

/// The failure that an operation reports for a link that it refuses.
pub open spec fn url_refusal(operation: Operation, url: Seq<char>) -> Option<Failure> {
    match url_problem(url) {
        Some(problem) => Some(Failure::UrlRefused { operation, problem, url }),
        None => None,
    }
}

/// Says why a download link is refused, or accepts it. Whether the link can
/// be reached is not looked at.
pub fn check_url(url: &str) -> (res: Result<(), UrlProblem>)
    ensures
        res == match url_problem(url@) {
            Some(problem) => Err::<(), UrlProblem>(problem),
            None => Ok(()),
        },
{
    if url.is_empty() {
        Err(UrlProblem::Empty)
    } else if same_text(url, "about:blank") {
        Err(UrlProblem::Placeholder)
    } else if !has_prefix(url, "http://") && !has_prefix(url, "https://") {
        Err(UrlProblem::UnsupportedScheme)
    } else {
        Ok(())
    }
}

/// Checks a download link on behalf of `operation`.
pub fn validate_url(operation: Operation, url: &str) -> (res: Result<(), ClientError>)
    ensures
        match url_refusal(operation, url@) {
            Some(failure) => res is Err && res->Err_0@ == failure,
            None => res is Ok,
        },
{
    match check_url(url) {
        Ok(()) => Ok(()),
        Err(problem) => Err(ClientError::UrlRefused { operation, problem, url: url.to_owned() }),
    }
}

/// The value of a hexadecimal digit, in either case.
pub open spec fn hex_value(digit: u8) -> Option<int> {
    if 0x30 <= digit <= 0x39 {
        Some(digit - 0x30)
    } else if 0x41 <= digit <= 0x46 {
        Some(digit - 0x41 + 10)
    } else if 0x61 <= digit <= 0x66 {
        Some(digit - 0x61 + 10)
    } else {
        None
    }
}

/// Percent-decoding of bytes: each `%` that two hexadecimal digits follow
/// stands for the byte that the digits spell; every other byte stands for
/// itself.
pub open spec fn percent_decoded(bytes: Seq<u8>) -> Seq<u8>
    decreases bytes.len(),
{
    if bytes.len() == 0 {
        Seq::empty()
    } else if bytes[0] == 0x25 && bytes.len() >= 3 && hex_value(bytes[1]) is Some && hex_value(
        bytes[2],
    ) is Some {
        seq![(hex_value(bytes[1])->0 * 16 + hex_value(bytes[2])->0) as u8] + percent_decoded(
            bytes.skip(3),
        )
    } else {
        seq![bytes[0]] + percent_decoded(bytes.skip(1))
    }
}

/// The name under which a download is stored: the percent-decoded name where
/// its bytes are UTF-8, the name as given otherwise.
pub open spec fn decoded_filename(filename: Seq<char>) -> Seq<char> {
    let bytes = percent_decoded(encode_utf8(filename));
    if valid_utf8(bytes) {
        decode_utf8(bytes)
    } else {
        filename
    }
}

/// `percent_encoding::percent_decode` on the bytes of `input`, then
/// `PercentDecode::decode_utf8`. The crate decodes every `%` followed by two
/// hexadecimal digits and leaves all else as it is; `decode_utf8` gives the
/// text of the decoded bytes, or an error where they are not UTF-8, which
/// comes out as `None`.
#[verifier::external_body]
fn percent_decode_utf8(input: &str) -> (res: Option<String>)
    ensures
        res is Some <==> valid_utf8(percent_decoded(encode_utf8(input@))),
        res matches Some(decoded) ==> decoded@ == decode_utf8(
            percent_decoded(encode_utf8(input@)),
        ),
{
    match percent_encoding::percent_decode(input.as_bytes()).decode_utf8() {
        Ok(decoded) => Some(decoded.into_owned()),
        Err(_) => None,
    }
}

/// The name under which a download is stored. A name that does not decode
/// to UTF-8 is kept as it was given.
pub fn decode_filename(filename: String) -> (res: String)
    ensures
        res@ == decoded_filename(filename@),
{
    match percent_decode_utf8(filename.as_str()) {
        Some(decoded) => decoded,
        None => filename,
    }
}

/// Where a download comes from and where it goes.
#[derive(Debug, Clone, PartialEq, Eq)]
pub struct DownloadTarget {
    /// The file to write: `decoded_filename` placed in `directory` by the
    /// path rules of the platform.
    pub path: String,
    /// The link to fetch.
    pub source_url: String,
    /// The directory that receives the file.
    pub directory: String,
    /// The name of the file.
    pub decoded_filename: String,
}

/// What is settled of a download before the platform joins the path.
pub struct DownloadPlan {
    pub source_url: Seq<char>,
    pub directory: Seq<char>,
    pub decoded_filename: Seq<char>,
}

impl DownloadTarget {
    /// The plan that this target carries out.
    pub open spec fn plan(&self) -> DownloadPlan {
        DownloadPlan {
            source_url: self.source_url@,
            directory: self.directory@,
            decoded_filename: self.decoded_filename@,
        }
    }
}

/// The plan of a download, or the failure that stops it: a refused link
/// first, a missing download directory second.
pub open spec fn download_plan(
    operation: Operation,
    url: Seq<char>,
    filename: Seq<char>,
    download_dir: Option<Seq<char>>,
) -> Result<DownloadPlan, Failure> {
    match url_refusal(operation, url) {
        Some(failure) => Err(failure),
        None => match download_dir {
            None => Err(Failure::NoDownloadDirectory),
            Some(directory) => Ok(
                DownloadPlan {
                    source_url: url,
                    directory,
                    decoded_filename: decoded_filename(filename),
                },
            ),
        },
    }
}

/// Plans a download into `download_dir`. The result is the plan that
/// [`download_plan`] gives, carried by a target whose path the platform has
/// joined, or the failure that it gives.
pub fn plan_download(
    operation: Operation,
    url: String,
    filename: String,
    download_dir: Option<String>,
) -> (res: Result<DownloadTarget, ClientError>)
    ensures
        match download_plan(operation, url@, filename@, text(download_dir)) {
            Ok(plan) => res is Ok && res->Ok_0.plan() == plan,
            Err(failure) => res is Err && res->Err_0@ == failure,
        },
{
    match validate_url(operation, url.as_str()) {
        Err(refused) => { return Err(refused); },
        Ok(()) => {},
    }
    let decoded_filename = decode_filename(filename);
    match download_dir {
        None => Err(ClientError::NoDownloadDirectory),
        Some(directory) => {
            let path = join_path(directory.as_str(), decoded_filename.as_str());
            Ok(DownloadTarget { path, source_url: url, directory, decoded_filename })
        },
    }
}

/// Plans the download of `url` under the name `filename` into
/// `download_dir`, the download directory of the user, or `None` where the
/// platform names none.
///
/// A refused link is reported before anything else, with its reason; a
/// missing download directory next. Otherwise the plan says to fetch `url`
/// and to store it in the directory under the decoded name.
pub fn download_file(url: String, filename: String, download_dir: Option<String>) -> (res: Result<
    DownloadTarget,
    ClientError,
>)
    ensures
        match download_plan(Operation::Download, url@, filename@, text(download_dir)) {
            Ok(plan) => res is Ok && res->Ok_0.plan() == plan,
            Err(failure) => res is Err && res->Err_0@ == failure,
        },
{
    plan_download(Operation::Download, url, filename, download_dir)
}

/// How the transfer of a download ended.
#[derive(Debug, Clone, PartialEq, Eq)]
pub enum TransferOutcome {
    /// The request did not get through; the text says why.
    RequestFailed(String),
    /// The request was answered with a status outside 200 to 299; the text is
    /// the status.
    Refused(String),
    /// The body could not be read; the text says why.
    BodyUnreadable(String),
    /// The file could not be written; the text says why.
    SaveFailed(String),
    /// The file is in its place.
    Stored,
}

/// The failure that a transfer amounts to, or `None` for a file that was
/// stored.
pub open spec fn transfer_failure(outcome: TransferOutcome) -> Option<Failure> {
    match outcome {
        TransferOutcome::RequestFailed(detail) => Some(Failure::RequestFailed(detail@)),
        TransferOutcome::Refused(status) => Some(Failure::RequestRefused(status@)),
        TransferOutcome::BodyUnreadable(detail) => Some(Failure::ResponseUnreadable(detail@)),
        TransferOutcome::SaveFailed(detail) => Some(Failure::SaveFailed(detail@)),
        TransferOutcome::Stored => None,
    }
}

/// Judges the transfer of `target`: the path of the file for one that was
/// stored, and for every other the failure that stopped it. An answer with a
/// status outside 200 to 299 is such a failure, whatever its body holds.
pub fn download_report(target: &DownloadTarget, outcome: TransferOutcome) -> (res: Result<
    String,
    ClientError,
>)
    ensures
        match transfer_failure(outcome) {
            None => res is Ok && res->Ok_0@ == target.path@,
            Some(failure) => res is Err && res->Err_0@ == failure,
        },
{
    match outcome {
        TransferOutcome::RequestFailed(detail) => Err(ClientError::RequestFailed(detail)),
        TransferOutcome::Refused(status) => Err(ClientError::RequestRefused(status)),
        TransferOutcome::BodyUnreadable(detail) => Err(ClientError::ResponseUnreadable(detail)),
        TransferOutcome::SaveFailed(detail) => Err(ClientError::SaveFailed(detail)),
        TransferOutcome::Stored => Ok(target.path.clone()),
    }
}

/// Ends a download: judges the transfer and, for a file that was stored,
/// shows it in its directory unless that directory was shown last.
///
/// A transfer that failed is reported and leaves the state as it was. A file
/// that was stored is a success whatever comes of showing it: where the
/// platform names no directory that contains it, nothing is shown and the
/// state stays; otherwise that directory is remembered, and the command is
/// the one for the file, or none where the directory was the one shown last.
pub fn finish_download(
    platform: Platform,
    state: &mut RevealState,
    target: &DownloadTarget,
    outcome: TransferOutcome,
) -> (res: Result<Opened, ClientError>)
    ensures
        match transfer_failure(outcome) {
            Some(failure) => res is Err && res->Err_0@ == failure
                && final(state).last() == old(state).last(),
            None => {
                &&& res is Ok
                &&& res->Ok_0.path@ == target.path@
                &&& res->Ok_0.file_named
                &&& (res->Ok_0.command is None && final(state).last() == old(state).last())
                    || (final(state).last() is Some && invocation(res->Ok_0.command)
                    == file_reveal(
                    platform,
                    old(state).last(),
                    target.path@,
                    final(state).last()->0,
                ))
            },
        },
{
    let path = match download_report(target, outcome) {
        Ok(path) => path,
        Err(e) => { return Err(e); },
    };
    let command = reveal_after_download(platform, state, path.as_str());
    Ok(Opened { path, file_named: true, command })
}

/// A link is accepted exactly when it begins with `http://` or `https://`.
/// The empty link, the blank page and every link with another scheme are
/// refused, each with its own reason; whether an accepted link can be
/// reached plays no part.
pub proof fn lemma_url_validation(url: Seq<char>)
    ensures
        url_problem(url) is None <==> has_web_scheme(url),
        url.len() == 0 ==> url_problem(url) == Some(UrlProblem::Empty),
        url == placeholder_url() ==> url_problem(url) == Some(UrlProblem::Placeholder),
        url.len() > 0 && url != placeholder_url() && !has_web_scheme(url) ==> url_problem(url)
            == Some(UrlProblem::UnsupportedScheme),
        forall|operation: Operation| #[trigger]
            url_refusal(operation, url) is None <==> has_web_scheme(url),
{
    reveal_strlit("about:blank");
    reveal_strlit("http://");
    reveal_strlit("https://");
    if "http://"@.is_prefix_of(url) {
        assert(url.subrange(0, 7)[0] == 'h');
    }
    if "https://"@.is_prefix_of(url) {
        assert(url.subrange(0, 8)[0] == 'h');
    }
}

/// Bytes that hold no `%` stand for themselves.
pub proof fn lemma_percent_free_bytes(bytes: Seq<u8>)
    requires
        forall|i: int| 0 <= i < bytes.len() ==> bytes[i] != 0x25,
    ensures
        percent_decoded(bytes) == bytes,
    decreases bytes.len(),
{
    if bytes.len() > 0 {
        lemma_percent_free_bytes(bytes.skip(1));
    }
}

/// A file name whose bytes hold no `%` is stored under the name as given.
pub proof fn lemma_plain_filename_kept(filename: Seq<char>)
    requires
        forall|i: int| 0 <= i < encode_utf8(filename).len() ==> encode_utf8(filename)[i] != 0x25,
    ensures
        decoded_filename(filename) == filename,
{
    lemma_percent_free_bytes(encode_utf8(filename));
    vstd::utf8::encode_utf8_valid_utf8(filename);
    vstd::utf8::encode_utf8_decode_utf8(filename);
}

} // verus!
