//! The failures that reach the caller, and the message shown for each.
//!
//! Fetching a list never fails outward, so no failure here belongs to it. A
//! download, a reveal or an installation reports the first failure that stops
//! it. The network, the disk and the processes are the caller's, who hands in
//! what went wrong there as text.

use vstd::prelude::*;
use vstd::string::StringExecFns;
use crate::text::joined;

verus! {

/// The families of failure.
#[derive(Debug, Clone, Copy, PartialEq, Eq, Structural)]
pub enum ErrorKind {
    /// The request was refused before any work was done.
    Validation,
    /// The network request did not give a usable answer.
    Transport,
    /// A directory could not be found or a file could not be written.
    Filesystem,
    /// A process could not be started or did not end well.
    Process,
    /// The platform has no way to do what was asked.
    UnsupportedPlatform,
}

/// The operation that looked at a download link.
#[derive(Debug, Clone, Copy, PartialEq, Eq, Structural)]
pub enum Operation {
    Download,
    SilentInstall,
}

/// Why a download link is refused.
#[derive(Debug, Clone, Copy, PartialEq, Eq, Structural)]
pub enum UrlProblem {
    /// The link is the empty string.
    Empty,
    /// The link is the blank page that stands for "no link".
    Placeholder,
    /// The link does not begin with `http://` or `https://`.
    UnsupportedScheme,
}

/// A failure of a download, a reveal or an installation.
#[derive(Debug, Clone, PartialEq, Eq)]
pub enum ClientError {
    /// The download link was refused.
    UrlRefused { operation: Operation, problem: UrlProblem, url: String },
    /// The platform names no download directory.
    NoDownloadDirectory,
    /// The download request did not get through.
    RequestFailed(String),
    /// The download request was answered with a status outside 200 to 299;
    /// the text is the status.
    RequestRefused(String),
    /// The body of the download could not be read.
    ResponseUnreadable(String),
    /// The downloaded file could not be written.
    SaveFailed(String),
    /// The file to reveal has no containing directory.
    NoParentDirectory,
    /// The file could not be revealed in its directory.
    RevealFailed(String),
    /// The download directory could not be opened.
    OpenDirectoryFailed(String),
    /// The link could not be handed to the system.
    OpenLinkFailed(String),
    /// The installer could not be started.
    InstallerNotStarted(String),
    /// The installer ended with a failure; the text is what it wrote to its
    /// error stream.
    InstallerFailed(String),
    /// Unattended installation is not available on this platform.
    UnsupportedPlatform,
}

/// What a [`ClientError`] holds.
pub enum Failure {
    UrlRefused { operation: Operation, problem: UrlProblem, url: Seq<char> },
    NoDownloadDirectory,
    RequestFailed(Seq<char>),
    RequestRefused(Seq<char>),
    ResponseUnreadable(Seq<char>),
    SaveFailed(Seq<char>),
    NoParentDirectory,
    RevealFailed(Seq<char>),
    OpenDirectoryFailed(Seq<char>),
    OpenLinkFailed(Seq<char>),
    InstallerNotStarted(Seq<char>),
    InstallerFailed(Seq<char>),
    UnsupportedPlatform,
}

impl View for ClientError {
    type V = Failure;

    open spec fn view(&self) -> Failure {
        match *self {
            ClientError::UrlRefused { operation, problem, url } => Failure::UrlRefused {
                operation,
                problem,
                url: url@,
            },
            ClientError::NoDownloadDirectory => Failure::NoDownloadDirectory,
            ClientError::RequestFailed(detail) => Failure::RequestFailed(detail@),
            ClientError::RequestRefused(status) => Failure::RequestRefused(status@),
            ClientError::ResponseUnreadable(detail) => Failure::ResponseUnreadable(detail@),
            ClientError::SaveFailed(detail) => Failure::SaveFailed(detail@),
            ClientError::NoParentDirectory => Failure::NoParentDirectory,
            ClientError::RevealFailed(detail) => Failure::RevealFailed(detail@),
            ClientError::OpenDirectoryFailed(detail) => Failure::OpenDirectoryFailed(detail@),
            ClientError::OpenLinkFailed(detail) => Failure::OpenLinkFailed(detail@),
            ClientError::InstallerNotStarted(detail) => Failure::InstallerNotStarted(detail@),
            ClientError::InstallerFailed(detail) => Failure::InstallerFailed(detail@),
            ClientError::UnsupportedPlatform => Failure::UnsupportedPlatform,
        }
    }
}

/// The family of a failure.
pub open spec fn kind_of(failure: Failure) -> ErrorKind {
    match failure {
        Failure::UrlRefused { .. } => ErrorKind::Validation,
        Failure::RequestFailed(_) | Failure::RequestRefused(_) | Failure::ResponseUnreadable(_) =>
            ErrorKind::Transport,
        Failure::NoDownloadDirectory | Failure::SaveFailed(_) | Failure::NoParentDirectory =>
            ErrorKind::Filesystem,
        Failure::RevealFailed(_)
        | Failure::OpenDirectoryFailed(_)
        | Failure::OpenLinkFailed(_)
        | Failure::InstallerNotStarted(_)
        | Failure::InstallerFailed(_) => ErrorKind::Process,
        Failure::UnsupportedPlatform => ErrorKind::UnsupportedPlatform,
    }
}

/// The message shown for a failure.
pub open spec fn message_of(failure: Failure) -> Seq<char> {
    match failure {
        Failure::UrlRefused { operation, problem, url } => match problem {
            UrlProblem::UnsupportedScheme => "无效的下载链接格式: "@ + url,
            _ => match operation {
                Operation::Download => "下载链接无效或为空，请检查应用配置"@,
                Operation::SilentInstall => "下载链接无效或为空，无法进行静默安装"@,
            },
        },
        Failure::NoDownloadDirectory => "无法获取下载目录"@,
        Failure::RequestFailed(detail) => "下载请求失败: "@ + detail,
        Failure::RequestRefused(status) => "下载请求失败: HTTP "@ + status,
        Failure::ResponseUnreadable(detail) => "读取响应内容失败: "@ + detail,
        Failure::SaveFailed(detail) => "保存文件失败: "@ + detail,
        Failure::NoParentDirectory => "无法获取文件所在目录"@,
        Failure::RevealFailed(detail) => "打开下载目录失败: "@ + detail,
        Failure::OpenDirectoryFailed(detail) => "无法打开下载目录: "@ + detail,
        Failure::OpenLinkFailed(detail) => "Failed to open URL: "@ + detail,
        Failure::InstallerNotStarted(detail) => "执行安装命令失败: "@ + detail,
        Failure::InstallerFailed(detail) => "安装失败: "@ + detail,
        Failure::UnsupportedPlatform => "静默安装目前仅支持Windows系统"@,
    }
}

impl ClientError {
    /// The family of this failure.
    pub fn kind(&self) -> (kind: ErrorKind)
        ensures
            kind == kind_of(self@),
    {
        match self {
            ClientError::UrlRefused { .. } => ErrorKind::Validation,
            ClientError::RequestFailed(_)
            | ClientError::RequestRefused(_)
            | ClientError::ResponseUnreadable(_) => ErrorKind::Transport,
            ClientError::NoDownloadDirectory
            | ClientError::SaveFailed(_)
            | ClientError::NoParentDirectory => ErrorKind::Filesystem,
            ClientError::RevealFailed(_)
            | ClientError::OpenDirectoryFailed(_)
            | ClientError::OpenLinkFailed(_)
            | ClientError::InstallerNotStarted(_)
            | ClientError::InstallerFailed(_) => ErrorKind::Process,
            ClientError::UnsupportedPlatform => ErrorKind::UnsupportedPlatform,
        }
    }

    /// The message shown for this failure.
    pub fn message(&self) -> (message: String)
        ensures
            message@ == message_of(self@),
    {
        match self {
            ClientError::UrlRefused { operation, problem, url } => match problem {
                UrlProblem::UnsupportedScheme => joined("无效的下载链接格式: ", url.as_str()),
                _ => match operation {
                    Operation::Download => String::from_str("下载链接无效或为空，请检查应用配置"),
                    Operation::SilentInstall => String::from_str(
                        "下载链接无效或为空，无法进行静默安装",
                    ),
                },
            },
            ClientError::NoDownloadDirectory => String::from_str("无法获取下载目录"),
            ClientError::RequestFailed(detail) => joined("下载请求失败: ", detail.as_str()),
            ClientError::RequestRefused(status) => joined("下载请求失败: HTTP ", status.as_str()),
            ClientError::ResponseUnreadable(detail) => joined(
                "读取响应内容失败: ",
                detail.as_str(),
            ),
            ClientError::SaveFailed(detail) => joined("保存文件失败: ", detail.as_str()),
            ClientError::NoParentDirectory => String::from_str("无法获取文件所在目录"),
            ClientError::RevealFailed(detail) => joined("打开下载目录失败: ", detail.as_str()),
            ClientError::OpenDirectoryFailed(detail) => joined(
                "无法打开下载目录: ",
                detail.as_str(),
            ),
            ClientError::OpenLinkFailed(detail) => joined("Failed to open URL: ", detail.as_str()),
            ClientError::InstallerNotStarted(detail) => joined(
                "执行安装命令失败: ",
                detail.as_str(),
            ),
            ClientError::InstallerFailed(detail) => joined("安装失败: ", detail.as_str()),
            ClientError::UnsupportedPlatform => String::from_str("静默安装目前仅支持Windows系统"),
        }
    }
}

} // verus!
