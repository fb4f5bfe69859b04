//! Where the optimizer comes from: the release archive of its platform,
//! downloaded, decompressed and unpacked.

use crate::error::{BuildError, BuildErrorView};
use crate::wasm_opt::{ARCH_X86_64, BINARYEN_VERSION, OUT_DIR};
use std::io::Read;
use vstd::prelude::*;
use vstd::string::*;

verus! {

/// The operating systems that prebuilt optimizers exist for.
#[derive(Clone, Copy, Debug, PartialEq, Eq, Structural)]
pub enum Platform {
    Linux,
    Windows,
    MacOS,
}

/// The platform of a machine with this operating system and architecture, if
/// a prebuilt optimizer exists for it: Linux, macOS or Windows on x86_64.
pub open spec fn platform_of(os: Seq<char>, arch: Seq<char>) -> Option<Platform> {
    if arch != ARCH_X86_64@ {
        None
    } else if os == "linux"@ {
        Some(Platform::Linux)
    } else if os == "macos"@ {
        Some(Platform::MacOS)
    } else if os == "windows"@ {
        Some(Platform::Windows)
    } else {
        None
    }
}

/// The address of the optimizer's release archive for a platform.
pub open spec fn archive_url(platform: Platform) -> Seq<char> {
    "http://github.com/WebAssembly/binaryen/releases/download/"@ + BINARYEN_VERSION@
        + "/binaryen-"@ + BINARYEN_VERSION@ + "-"@ + ARCH_X86_64@ + "-"@ + platform.name_text()
        + ".tar.gz"@
}

impl Platform {
    /// The name of the platform in the names of release archives.
    pub open spec fn name_text(self) -> Seq<char> {
        match self {
            Platform::Linux => "linux"@,
            Platform::Windows => "windows"@,
            Platform::MacOS => "macos"@,
        }
    }

    /// The platform of the machine with the operating system `os` and the
    /// architecture `arch`, as the standard library names them. Where no
    /// prebuilt optimizer exists for it, the failure carries both names.
    pub fn try_new(os: &str, arch: &str) -> (resolved: Result<Platform, BuildError>)
        ensures
            match resolved {
                Ok(platform) => platform_of(os@, arch@) == Some(platform),
                Err(error) => platform_of(os@, arch@) is None && error@ == (
                BuildErrorView::UnsupportedPlatform { os: os@, arch: arch@ }),
            },
    {
        let os_name = String::from_str(os);
        if String::from_str(arch) != String::from_str(ARCH_X86_64) {
            Err(BuildError::UnsupportedPlatform { os: os_name, arch: String::from_str(arch) })
        } else if os_name == String::from_str("linux") {
            Ok(Platform::Linux)
        } else if os_name == String::from_str("macos") {
            Ok(Platform::MacOS)
        } else if os_name == String::from_str("windows") {
            Ok(Platform::Windows)
        } else {
            Err(BuildError::UnsupportedPlatform { os: os_name, arch: String::from_str(arch) })
        }
    }

    /// The name of the platform in the names of release archives.
    pub fn name(&self) -> (text: &'static str)
        ensures
            text@ == self.name_text(),
    {
        match self {
            Platform::Linux => "linux",
            Platform::Windows => "windows",
            Platform::MacOS => "macos",
        }
    }

    /// The address of the optimizer's release archive for this platform.
    pub fn url(&self) -> (url: String)
        ensures
            url@ == archive_url(*self),
    {
        let mut url = String::from_str(
            "http://github.com/WebAssembly/binaryen/releases/download/",
        );
        url.append(BINARYEN_VERSION);
        url.append("/binaryen-");
        url.append(BINARYEN_VERSION);
        url.append("-");
        url.append(ARCH_X86_64);
        url.append("-");
        url.append(self.name());
        url.append(".tar.gz");
        url
    }
}

/// What a gzip archive holds once it is decompressed; `None` for bytes that
/// are no sound gzip archive.
pub uninterp spec fn gunzip_of(archive: Seq<u8>) -> Option<Seq<u8>>;

/// Decompresses a gzip archive in memory with `flate2::read::GzDecoder`, read
/// to its end. Believed of it: whether it succeeds, and the bytes that it then
/// gives, depend on the archive alone. Nothing is said of the words of a
/// failure.
#[verifier::external_body]
fn gunzip(archive: &[u8]) -> (inflated: Result<Vec<u8>, String>)
    ensures
        match inflated {
            Ok(data) => gunzip_of(archive@) == Some(data@),
            Err(_) => gunzip_of(archive@) is None,
        },
{
    let mut data = Vec::new();
    match flate2::read::GzDecoder::new(archive).read_to_end(&mut data) {
        Ok(_) => Ok(data),
        Err(e) => Err(e.to_string()),
    }
}

/// Where the installation of the optimizer stands, and what it needs next.
#[derive(Clone, Debug, PartialEq, Eq)]
pub enum Fetch {
    /// The executable is in place: there is nothing to do.
    Installed,
    /// The archive at `url` is to be requested. A request that fails is made
    /// once more if `retry` is set.
    Download { url: String, retry: bool },
    /// The archive has arrived; the tar archive `tar` that it held is to be
    /// unpacked into `dir`.
    Unpack { dir: String, tar: Vec<u8> },
    /// The installation failed.
    Failed(BuildError),
}

/// An installation state as mathematical value.
pub enum FetchView {
    Installed,
    Download { url: Seq<char>, retry: bool },
    Unpack { dir: Seq<char>, tar: Seq<u8> },
    Failed(BuildErrorView),
}

impl View for Fetch {
    type V = FetchView;

    open spec fn view(&self) -> FetchView {
        match self {
            Fetch::Installed => FetchView::Installed,
            Fetch::Download { url, retry } => FetchView::Download { url: url@, retry: *retry },
            Fetch::Unpack { dir, tar } => FetchView::Unpack { dir: dir@, tar: tar@ },
            Fetch::Failed(error) => FetchView::Failed(error@),
        }
    }
}

/// The failure of a step, if it failed.
pub open spec fn failure_of(result: Result<(), String>) -> Option<Seq<char>> {
    match result {
        Ok(_) => None,
        Err(cause) => Some(cause@),
    }
}

impl FetchView {
    /// The first state. An executable that is present is taken as it is. One that
    /// is absent is downloaded for the platform of the machine, with one retry;
    /// without a platform the installation fails before any request is made.
    pub open spec fn start(installed: bool, os: Seq<char>, arch: Seq<char>) -> FetchView {
        if installed {
            FetchView::Installed
        } else {
            match platform_of(os, arch) {
                Some(platform) => FetchView::Download { url: archive_url(platform), retry: true },
                None => FetchView::Failed(BuildErrorView::UnsupportedPlatform { os, arch }),
            }
        }
    }

    /// The state after a request for the archive failed. A first failed
    /// request is made once more; a second failure ends the installation. In
    /// any other state no request was due, and the state stays as it is.
    pub open spec fn after_request_failure(self, cause: Seq<char>) -> FetchView {
        match self {
            FetchView::Download { url, retry } => if retry {
                FetchView::Download { url, retry: false }
            } else {
                FetchView::Failed(BuildErrorView::DownloadFailed { cause })
            },
            _ => self,
        }
    }

    /// The state after the archive arrived and was decompressed, or could not
    /// be. What it held is unpacked next; an archive that cannot be
    /// decompressed ends the installation. In any other state no archive was
    /// due, and the state stays as it is.
    pub open spec fn after_archive(self, inflated: Result<Seq<u8>, Seq<char>>) -> FetchView {
        match self {
            FetchView::Download { .. } => match inflated {
                Ok(tar) => FetchView::Unpack { dir: "target/binaryen"@, tar },
                Err(cause) => FetchView::Failed(BuildErrorView::ExtractFailed { cause }),
            },
            _ => self,
        }
    }

    /// The state after the archive was unpacked, or could not be. In any other
    /// state nothing was to be unpacked, and the state stays as it is.
    pub open spec fn after_unpack(self, failure: Option<Seq<char>>) -> FetchView {
        match self {
            FetchView::Unpack { .. } => match failure {
                None => FetchView::Installed,
                Some(cause) => FetchView::Failed(BuildErrorView::ExtractFailed { cause }),
            },
            _ => self,
        }
    }
}

/// What was decompressed, or why nothing was, as mathematical value.
pub open spec fn inflated_view(inflated: Result<Vec<u8>, String>) -> Result<Seq<u8>, Seq<char>> {
    match inflated {
        Ok(tar) => Ok(tar@),
        Err(cause) => Err(cause@),
    }
}

impl Fetch {
    /// Takes in that a request for the archive failed.
    pub fn request_failed(self, cause: String) -> (next: Fetch)
        ensures
            next@ == self@.after_request_failure(cause@),
    {
        match self {
            Fetch::Download { url, retry } => if retry {
                Fetch::Download { url, retry: false }
            } else {
                Fetch::Failed(BuildError::DownloadFailed { cause })
            },
            other => other,
        }
    }

    /// Takes in what decompressing the archive that arrived gave.
    pub fn arrived(self, inflated: Result<Vec<u8>, String>) -> (next: Fetch)
        ensures
            next@ == self@.after_archive(inflated_view(inflated)),
    {
        match self {
            Fetch::Download { url, retry } => match inflated {
                Ok(tar) => Fetch::Unpack { dir: String::from_str(OUT_DIR), tar },
                Err(cause) => Fetch::Failed(BuildError::ExtractFailed { cause }),
            },
            other => other,
        }
    }

    /// Takes in how a request for the archive ended: the bytes that arrived,
    /// which are decompressed here, or the cause of the failure.
    pub fn downloaded(self, result: Result<Vec<u8>, String>) -> (next: Fetch)
        ensures
            match result {
                Ok(archive) => match gunzip_of(archive@) {
                    Some(tar) => next@ == self@.after_archive(Ok(tar)),
                    None => exists|cause: Seq<char>| next@ == self@.after_archive(Err(cause)),
                },
                Err(cause) => next@ == self@.after_request_failure(cause@),
            },
    {
        match result {
            Ok(archive) => {
                let inflated = gunzip(archive.as_slice());
                let ghost given = inflated_view(inflated);
                let ghost before = self@;
                let next = self.arrived(inflated);
                proof {
                    if let Err(cause) = given {
                        assert(next@ == before.after_archive(Err(cause)));
                    }
                }
                next
            },
            Err(cause) => self.request_failed(cause),
        }
    }

    /// Takes in how unpacking the archive ended.
    pub fn unpacked(self, result: Result<(), String>) -> (next: Fetch)
        ensures
            next@ == self@.after_unpack(failure_of(result)),
    {
        match self {
            Fetch::Unpack { dir, tar } => match result {
                Ok(_) => Fetch::Installed,
                Err(cause) => Fetch::Failed(BuildError::ExtractFailed { cause }),
            },
            other => other,
        }
    }
}

/// A request is made at most twice: after two failures in a row the
/// installation has failed with the cause of the second, and where no retry was
/// left, after the first.
pub proof fn lemma_download_is_retried_once(
    state: FetchView,
    first: Seq<char>,
    second: Seq<char>,
)
    requires
        state is Download,
    ensures
        !(state.after_request_failure(first).after_request_failure(second) is Download),
        state->retry ==> state.after_request_failure(first).after_request_failure(second) == (
        FetchView::Failed(BuildErrorView::DownloadFailed { cause: second })),
        !state->retry ==> state.after_request_failure(first) == (FetchView::Failed(
            BuildErrorView::DownloadFailed { cause: first },
        )),
{
}

/// Without a platform nothing is requested: the installation of an absent
/// optimizer fails at once, and stays failed whatever is reported to it.
pub proof fn lemma_no_download_without_platform(
    os: Seq<char>,
    arch: Seq<char>,
    cause: Seq<char>,
    inflated: Result<Seq<u8>, Seq<char>>,
    failure: Option<Seq<char>>,
)
    requires
        platform_of(os, arch) is None,
    ensures
        FetchView::start(false, os, arch) == (FetchView::Failed(
            BuildErrorView::UnsupportedPlatform { os, arch },
        )),
        FetchView::start(false, os, arch).after_request_failure(cause) == FetchView::start(
            false,
            os,
            arch,
        ),
        FetchView::start(false, os, arch).after_archive(inflated) == FetchView::start(
            false,
            os,
            arch,
        ),
        FetchView::start(false, os, arch).after_unpack(failure) == FetchView::start(
            false,
            os,
            arch,
        ),
{
}

/// An optimizer that is present is never fetched again.
pub proof fn lemma_present_optimizer_is_kept(os: Seq<char>, arch: Seq<char>)
    ensures
        FetchView::start(true, os, arch) == FetchView::Installed,
{
}

} // verus!
