//! Decisions behind fetching the installer and handing it to the OS opener.
//!
//! The flow is: issue an HTTP GET for the installer, require a success
//! status, resolve the user's downloads directory, write the body to a
//! file named after the version, and open that file with the OS default
//! handler. The runtime glue performs each of those effects; this module
//! decides, from the reported outcome of each step, what happens next and
//! which error is surfaced when a step fails.

use vstd::prelude::*;

verus! {

/// The leading part of the installer's file name.
pub open spec fn spec_installer_name_prefix() -> Seq<char> {
    "The Lost Project_"@
}

/// The trailing part of the installer's file name.
pub open spec fn spec_installer_name_suffix() -> Seq<char> {
    "_x64.dmg"@
}

/// The file name the downloaded installer is saved under: the version
/// label framed by the fixed prefix and suffix.
pub open spec fn spec_installer_filename(version: Seq<char>) -> Seq<char> {
    spec_installer_name_prefix() + version + spec_installer_name_suffix()
}

/// Builds the file name the installer is saved under for this version.
pub fn installer_filename(version: &str) -> (name: String)
    ensures
        name@ == spec_installer_filename(version@),
{
    let mut name = String::from_str("The Lost Project_");
    name.append(version);
    name.append("_x64.dmg");
    name
}

/// Two distinct version labels never collide on the same file name.
pub proof fn lemma_installer_filename_injective(v1: Seq<char>, v2: Seq<char>)
    ensures
        spec_installer_filename(v1) == spec_installer_filename(v2) ==> v1 == v2,
{
    if spec_installer_filename(v1) == spec_installer_filename(v2) {
        let p = spec_installer_name_prefix();
        let s = spec_installer_name_suffix();
        assert(spec_installer_filename(v1).len() == p.len() + v1.len() + s.len());
        assert(spec_installer_filename(v2).len() == p.len() + v2.len() + s.len());
        assert(v1.len() == v2.len());
        assert forall|i: int| 0 <= i < v1.len() implies v1[i] == v2[i] by {
            assert((p + v1 + s)[p.len() + i] == v1[i]);
            assert((p + v2 + s)[p.len() + i] == v2[i]);
        }
        assert(v1 =~= v2);
    }
}

/// Whether an HTTP status code reports success.
pub open spec fn spec_is_success_status(status: u16) -> bool {
    200 <= status <= 299
}

/// Reports whether an HTTP status code is in the success range.
pub fn is_success_status(status: u16) -> (r: bool)
    ensures
        r == spec_is_success_status(status),
{
    200 <= status && status <= 299
}

/// The character for a single decimal digit.
pub open spec fn spec_digit_char(d: nat) -> char {
    if d == 0 {
        '0'
    } else if d == 1 {
        '1'
    } else if d == 2 {
        '2'
    } else if d == 3 {
        '3'
    } else if d == 4 {
        '4'
    } else if d == 5 {
        '5'
    } else if d == 6 {
        '6'
    } else if d == 7 {
        '7'
    } else if d == 8 {
        '8'
    } else {
        '9'
    }
}

/// The decimal rendering of a natural number, most significant digit
/// first and without leading zeros (a lone zero for 0).
pub open spec fn spec_decimal(n: nat) -> Seq<char>
    decreases n,
{
    if n < 10 {
        seq![spec_digit_char(n)]
    } else {
        spec_decimal(n / 10) + seq![spec_digit_char(n % 10)]
    }
}

/// A one-character string for a single decimal digit.
fn digit_string(d: u16) -> (s: String)
    requires
        d < 10,
    ensures
        s@ == seq![spec_digit_char(d as nat)],
{
    let s = match d {
        0 => String::from_str("0"),
        1 => String::from_str("1"),
        2 => String::from_str("2"),
        3 => String::from_str("3"),
        4 => String::from_str("4"),
        5 => String::from_str("5"),
        6 => String::from_str("6"),
        7 => String::from_str("7"),
        8 => String::from_str("8"),
        _ => String::from_str("9"),
    };
    proof {
        reveal_strlit("0");
        reveal_strlit("1");
        reveal_strlit("2");
        reveal_strlit("3");
        reveal_strlit("4");
        reveal_strlit("5");
        reveal_strlit("6");
        reveal_strlit("7");
        reveal_strlit("8");
        reveal_strlit("9");
        assert(s@ =~= seq![spec_digit_char(d as nat)]);
    }
    s
}

/// Renders a status code (or any small number) in decimal.
pub fn decimal_string(n: u16) -> (s: String)
    ensures
        s@ == spec_decimal(n as nat),
    decreases n,
{
    if n < 10 {
        digit_string(n)
    } else {
        let mut s = decimal_string(n / 10);
        let last = digit_string(n % 10);
        s.append(last.as_str());
        s
    }
}

/// A decimal rendering is never empty, a number of two or more digits
/// renders longer than a single digit, and the rendering grows by one
/// character per decimal order of magnitude.
pub proof fn lemma_decimal_len(n: nat)
    ensures
        1 <= spec_decimal(n).len(),
        n < 10 ==> spec_decimal(n).len() == 1,
        10 <= n ==> 2 <= spec_decimal(n).len(),
        n <= 99 ==> spec_decimal(n).len() <= 2,
        n <= 999 ==> spec_decimal(n).len() <= 3,
        n <= 9999 ==> spec_decimal(n).len() <= 4,
        n <= 99999 ==> spec_decimal(n).len() <= 5,
    decreases n,
{
    if n >= 10 {
        lemma_decimal_len(n / 10);
    }
}

/// Two distinct numbers never share a decimal rendering.
pub proof fn lemma_decimal_injective(a: nat, b: nat)
    ensures
        spec_decimal(a) == spec_decimal(b) ==> a == b,
    decreases a,
{
    if spec_decimal(a) == spec_decimal(b) {
        lemma_decimal_len(a);
        lemma_decimal_len(b);
        if a < 10 && b < 10 {
            assert(spec_decimal(a)[0] == spec_decimal(b)[0]);
            assert(spec_digit_char(a) == spec_digit_char(b));
            assert(a == b);
        } else if a >= 10 && b >= 10 {
            let pa = spec_decimal(a / 10);
            let pb = spec_decimal(b / 10);
            let ca = spec_digit_char(a % 10);
            let cb = spec_digit_char(b % 10);
            assert((pa + seq![ca]).len() == pa.len() + 1);
            assert((pb + seq![cb]).len() == pb.len() + 1);
            assert(pa.len() == pb.len());
            assert((pa + seq![ca])[pa.len() as int] == ca);
            assert((pb + seq![cb])[pb.len() as int] == cb);
            assert(ca == cb);
            assert(a % 10 == b % 10);
            assert forall|i: int| 0 <= i < pa.len() implies pa[i] == pb[i] by {
                assert((pa + seq![ca])[i] == pa[i]);
                assert((pb + seq![cb])[i] == pb[i]);
            }
            assert(pa =~= pb);
            lemma_decimal_injective(a / 10, b / 10);
            assert(a / 10 == b / 10);
            assert(a == 10 * (a / 10) + a % 10) by (nonlinear_arith);
            assert(b == 10 * (b / 10) + b % 10) by (nonlinear_arith);
        }
        // A one-digit and a multi-digit rendering differ in length, so the
        // remaining cases contradict the assumed equality.
    }
}

/// The step of the installer flow that failed.
#[derive(Clone, Copy, Debug, PartialEq, Eq)]
pub enum InstallerError {
    /// The HTTP request could not be completed.
    RequestFailed,
    /// The server answered with a status outside the success range.
    BadStatus(u16),
    /// The user's downloads directory could not be resolved.
    DownloadsDirUnavailable,
    /// The installer could not be written to the downloads directory.
    SaveFailed,
    /// The OS default opener could not be launched on the saved file.
    OpenFailed,
}

/// The user-facing description of each failure.
pub open spec fn spec_error_message(e: InstallerError) -> Seq<char> {
    match e {
        InstallerError::RequestFailed => "failed to download the installer"@,
        InstallerError::BadStatus(status) => "installer download failed with HTTP status "@
            + spec_decimal(status as nat),
        InstallerError::DownloadsDirUnavailable => "could not locate the downloads directory"@,
        InstallerError::SaveFailed => "failed to save the installer to the downloads directory"@,
        InstallerError::OpenFailed => "failed to open the downloaded installer"@,
    }
}

impl InstallerError {
    /// The user-facing error string for this failure.
    pub fn message(&self) -> (m: String)
        ensures
            m@ == spec_error_message(*self),
    {
        match self {
            InstallerError::RequestFailed => String::from_str("failed to download the installer"),
            InstallerError::BadStatus(status) => {
                let mut m = String::from_str("installer download failed with HTTP status ");
                let digits = decimal_string(*status);
                m.append(digits.as_str());
                m
            },
            InstallerError::DownloadsDirUnavailable => String::from_str(
                "could not locate the downloads directory",
            ),
            InstallerError::SaveFailed => String::from_str(
                "failed to save the installer to the downloads directory",
            ),
            InstallerError::OpenFailed => String::from_str(
                "failed to open the downloaded installer",
            ),
        }
    }
}

/// Each failure is surfaced as a distinct user-facing string: two
/// different errors never share a message.
pub proof fn lemma_error_messages_distinct(e1: InstallerError, e2: InstallerError)
    ensures
        spec_error_message(e1) == spec_error_message(e2) ==> e1 == e2,
{
    reveal_strlit("failed to download the installer");
    reveal_strlit("installer download failed with HTTP status ");
    reveal_strlit("could not locate the downloads directory");
    reveal_strlit("failed to save the installer to the downloads directory");
    reveal_strlit("failed to open the downloaded installer");
    // Mentioning each length lets the four fixed messages, all of distinct
    // lengths, be told apart; a status message is longer than any of them.
    assert("failed to download the installer"@.len() == 32);
    assert("installer download failed with HTTP status "@.len() == 43);
    assert("could not locate the downloads directory"@.len() == 40);
    assert("failed to save the installer to the downloads directory"@.len() == 55);
    assert("failed to open the downloaded installer"@.len() == 39);
    if spec_error_message(e1) == spec_error_message(e2) {
        let p = "installer download failed with HTTP status "@;
        match (e1, e2) {
            (InstallerError::BadStatus(s1), InstallerError::BadStatus(s2)) => {
                lemma_decimal_len(s1 as nat);
                lemma_decimal_len(s2 as nat);
                let d1 = spec_decimal(s1 as nat);
                let d2 = spec_decimal(s2 as nat);
                assert((p + d1).len() == p.len() + d1.len());
                assert((p + d2).len() == p.len() + d2.len());
                assert(d1.len() == d2.len());
                assert forall|i: int| 0 <= i < d1.len() implies d1[i] == d2[i] by {
                    assert((p + d1)[p.len() + i] == d1[i]);
                    assert((p + d2)[p.len() + i] == d2[i]);
                }
                assert(d1 =~= d2);
                lemma_decimal_injective(s1 as nat, s2 as nat);
            },
            (InstallerError::BadStatus(s1), _) => {
                lemma_decimal_len(s1 as nat);
                let d1 = spec_decimal(s1 as nat);
                assert((p + d1).len() == p.len() + d1.len());
            },
            (_, InstallerError::BadStatus(s2)) => {
                lemma_decimal_len(s2 as nat);
                let d2 = spec_decimal(s2 as nat);
                assert((p + d2).len() == p.len() + d2.len());
            },
            _ => {
                // Between the four fixed messages the lengths already differ.
            },
        }
    }
}

/// Where a single installer download stands.
#[derive(Clone, Copy, Debug, PartialEq, Eq)]
pub enum DownloadPhase {
    /// The HTTP GET for the installer is outstanding.
    Fetching,
    /// A success response arrived; its body of `expected_len` bytes is to
    /// be written to the downloads directory.
    Saving { expected_len: usize },
    /// The file is on disk; it is to be handed to the OS default opener.
    Opening,
    /// The installer was downloaded, saved and opened.
    Done,
    /// The flow stopped at the step described by `error`.
    Failed { error: InstallerError },
}

/// What the runtime glue reports back after performing an effect.
#[derive(Clone, Copy, Debug, PartialEq, Eq)]
pub enum DownloadEvent {
    /// The HTTP GET completed with this status and a body of this length.
    Response { status: u16, body_len: usize },
    /// The HTTP GET could not be completed.
    NetworkFailure,
    /// The user's downloads directory could not be resolved.
    DirectoryMissing,
    /// The file was written with this many bytes.
    Written { bytes: usize },
    /// Writing the file failed.
    WriteFailure,
    /// The OS default opener accepted the file.
    Opened,
    /// Launching the OS default opener failed.
    OpenFailure,
}

/// The next phase of the download after one reported event. Events that
/// do not belong to the current phase leave it unchanged, and the two
/// terminal phases never move.
pub open spec fn spec_download_step(phase: DownloadPhase, event: DownloadEvent) -> DownloadPhase {
    match phase {
        DownloadPhase::Fetching => match event {
            DownloadEvent::Response { status, body_len } => if spec_is_success_status(status) {
                DownloadPhase::Saving { expected_len: body_len }
            } else {
                DownloadPhase::Failed { error: InstallerError::BadStatus(status) }
            },
            DownloadEvent::NetworkFailure => DownloadPhase::Failed {
                error: InstallerError::RequestFailed,
            },
            _ => phase,
        },
        DownloadPhase::Saving { expected_len } => match event {
            DownloadEvent::DirectoryMissing => DownloadPhase::Failed {
                error: InstallerError::DownloadsDirUnavailable,
            },
            DownloadEvent::Written { bytes } => if bytes == expected_len {
                DownloadPhase::Opening
            } else {
                DownloadPhase::Failed { error: InstallerError::SaveFailed }
            },
            DownloadEvent::WriteFailure => DownloadPhase::Failed {
                error: InstallerError::SaveFailed,
            },
            _ => phase,
        },
        DownloadPhase::Opening => match event {
            DownloadEvent::Opened => DownloadPhase::Done,
            DownloadEvent::OpenFailure => DownloadPhase::Failed {
                error: InstallerError::OpenFailed,
            },
            _ => phase,
        },
        DownloadPhase::Done => phase,
        DownloadPhase::Failed { .. } => phase,
    }
}

/// Advances the download by one reported event.
pub fn download_step(phase: DownloadPhase, event: DownloadEvent) -> (next: DownloadPhase)
    ensures
        next == spec_download_step(phase, event),
{
    match phase {
        DownloadPhase::Fetching => match event {
            DownloadEvent::Response { status, body_len } => if is_success_status(status) {
                DownloadPhase::Saving { expected_len: body_len }
            } else {
                DownloadPhase::Failed { error: InstallerError::BadStatus(status) }
            },
            DownloadEvent::NetworkFailure => DownloadPhase::Failed {
                error: InstallerError::RequestFailed,
            },
            _ => phase,
        },
        DownloadPhase::Saving { expected_len } => match event {
            DownloadEvent::DirectoryMissing => DownloadPhase::Failed {
                error: InstallerError::DownloadsDirUnavailable,
            },
            DownloadEvent::Written { bytes } => if bytes == expected_len {
                DownloadPhase::Opening
            } else {
                DownloadPhase::Failed { error: InstallerError::SaveFailed }
            },
            DownloadEvent::WriteFailure => DownloadPhase::Failed {
                error: InstallerError::SaveFailed,
            },
            _ => phase,
        },
        DownloadPhase::Opening => match event {
            DownloadEvent::Opened => DownloadPhase::Done,
            DownloadEvent::OpenFailure => DownloadPhase::Failed {
                error: InstallerError::OpenFailed,
            },
            _ => phase,
        },
        DownloadPhase::Done => phase,
        DownloadPhase::Failed { .. } => phase,
    }
}

/// The phase reached from the start of the flow after a sequence of
/// reported events.
pub open spec fn spec_run_download(events: Seq<DownloadEvent>) -> DownloadPhase
    decreases events.len(),
{
    if events.len() == 0 {
        DownloadPhase::Fetching
    } else {
        spec_download_step(spec_run_download(events.drop_last()), events.last())
    }
}

/// A download that has been saved, or finished, got there only through a
/// success response, followed later by a write of exactly the body length
/// that response announced: a non-success response never leads to a
/// file, and a saved file holds as many bytes as the body had.
pub proof fn lemma_download_needs_success_response(events: Seq<DownloadEvent>)
    ensures
        (spec_run_download(events) matches DownloadPhase::Saving { expected_len } ==> exists|i: int|
            {
                &&& 0 <= i < events.len()
                &&& (#[trigger] events[i]) matches DownloadEvent::Response { status, body_len }
                &&& spec_is_success_status(status)
                &&& body_len == expected_len
            }),
        (spec_run_download(events) is Opening || spec_run_download(events) is Done ==> exists|
            i: int,
            j: int,
        |
            {
                &&& 0 <= i < j < events.len()
                &&& (#[trigger] events[i]) matches DownloadEvent::Response { status, body_len }
                &&& spec_is_success_status(status)
                &&& (#[trigger] events[j]) matches DownloadEvent::Written { bytes }
                &&& bytes == body_len
            }),
    decreases events.len(),
{
    if events.len() > 0 {
        let prefix = events.drop_last();
        lemma_download_needs_success_response(prefix);
        assert(forall|i: int| 0 <= i < prefix.len() ==> prefix[i] == #[trigger] events[i]);
    }
}

/// Once the download is done or has failed, no further event moves it.
pub proof fn lemma_download_terminal_stays(phase: DownloadPhase, event: DownloadEvent)
    ensures
        phase is Done ==> spec_download_step(phase, event) == phase,
        phase is Failed ==> spec_download_step(phase, event) == phase,
{
}

} // verus!
