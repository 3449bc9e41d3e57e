//! Fetching an archive and unpacking it: what to run, what to say meanwhile,
//! and where the unpacked files belong.

use crate::paths::{child, child_path};
use crate::platform::Platform;
use crate::text::{decimal, decimal_text, ends_with, push_char, str_without_suffix, without_suffix};
use crate::version::{version_text, SemanticVersion};
use vstd::prelude::*;
use vstd::string::StringExecFns;

verus! {

/// Why an archive was not fetched or not unpacked.
#[derive(Debug)]
pub enum PipelineError {
    /// The answer did not say how long its body is.
    NoContentLength,
    /// Reading the answer or writing a file failed.
    Io { message: String },
    /// The extractor ran and did not exit with code 0.
    ExtractorFailed { archive: String, code: Option<i32> },
    /// The extractor could not be started.
    ExtractorNotRun { archive: String, message: String },
}

/// How far a download has come.
#[derive(Clone, Copy, Debug, PartialEq, Eq, Structural)]
pub struct Progress {
    /// The length of the body, as the answer announced it.
    pub total: u64,
    /// The bytes received so far.
    pub received: u64,
}

impl Progress {
    /// The bytes that are still to come: none once more have come than were
    /// announced.
    pub open spec fn left(self) -> nat {
        if self.received <= self.total {
            (self.total - self.received) as nat
        } else {
            0
        }
    }

    /// Starts a download of the announced length. An answer that announces
    /// none cannot be followed, and is an error.
    pub fn start(content_length: Option<u64>) -> (r: Result<Progress, PipelineError>)
        ensures
            match content_length {
                Some(total) => r == Ok::<Progress, PipelineError>(Progress { total, received: 0 }),
                None => r == Err::<Progress, PipelineError>(PipelineError::NoContentLength),
            },
    {
        match content_length {
            Some(total) => Ok(Progress { total, received: 0 }),
            None => Err(PipelineError::NoContentLength),
        }
    }

    /// Counts a chunk of `len` bytes as received. The count stops at the
    /// largest number that it can hold.
    pub fn advance(&mut self, len: usize)
        ensures
            final(self).total == old(self).total,
            final(self).received as int == if old(self).received + len <= u64::MAX {
                old(self).received + len
            } else {
                u64::MAX as int
            },
    {
        let len: u64 = len as u64;
        if len <= u64::MAX - self.received {
            self.received = self.received + len;
        } else {
            self.received = u64::MAX;
        }
    }

    /// The bytes that are still to come.
    pub fn remaining(&self) -> (r: u64)
        ensures
            r as nat == self.left(),
    {
        if self.received <= self.total {
            self.total - self.received
        } else {
            0
        }
    }
}

/// What a download is called while it runs: the release's version and the
/// asset's name.
pub open spec fn label_text(version: Seq<char>, name: Seq<char>) -> Seq<char> {
    "downloading "@ + version + seq!['/'] + name
}

/// The line that tells how far a download has come, before it is padded: it
/// starts with a carriage return, so that it overwrites the line before it.
pub open spec fn progress_text(label: Seq<char>, left: nat) -> Seq<char> {
    seq!['\r'] + label + ", "@ + decimal(left) + " bytes left"@
}

/// `line`, with spaces behind it until it is `width` characters long; as it
/// is where it is that long already.
pub open spec fn padded(line: Seq<char>, width: nat) -> Seq<char> {
    if line.len() < width {
        line + Seq::new((width - line.len()) as nat, |i: int| ' ')
    } else {
        line
    }
}

/// Names a download after the release's version and the asset's name.
pub fn download_label(version: &SemanticVersion, name: &str) -> (r: String)
    ensures
        r@ == label_text(version_text(version@), name@),
{
    let mut label = "downloading ".to_owned();
    label.append(version.to_text().as_str());
    push_char(&mut label, '/');
    label.append(name);
    proof {
        assert(label@ =~= label_text(version_text(version@), name@));
    }
    label
}

/// The line that tells how many bytes of a download are still to come, padded
/// with spaces to the width of the terminal. A width of 0 stands for a
/// terminal whose width is not known, and pads nothing.
pub fn progress_line(label: &str, progress: &Progress, term_cols: usize) -> (r: String)
    ensures
        r@ == padded(progress_text(label@, progress.left()), term_cols as nat),
{
    let mut line = String::new();
    push_char(&mut line, '\r');
    line.append(label);
    line.append(", ");
    line.append(decimal_text(progress.remaining()).as_str());
    line.append(" bytes left");
    let ghost text = line@;
    proof {
        assert(text =~= progress_text(label@, progress.left()));
    }
    let len: usize = line.as_str().unicode_len();
    let mut i: usize = len;
    while i < term_cols
        invariant
            len == text.len(),
            len <= i,
            i <= term_cols || i == len,
            line@ == text + Seq::new((i - len) as nat, |k: int| ' '),
        decreases term_cols - i,
    {
        push_char(&mut line, ' ');
        proof {
            assert(line@ =~= text + Seq::new((i + 1 - len) as nat, |k: int| ' '));
        }
        i = i + 1;
    }
    proof {
        assert(line@ =~= padded(text, term_cols as nat));
    }
    line
}

/// A program to run, with its arguments.
#[derive(Debug)]
pub struct Invocation {
    pub program: String,
    pub args: Vec<String>,
}

/// The program that unpacks archives on a platform.
pub open spec fn extractor_program(platform: Platform) -> Seq<char> {
    match platform {
        Platform::Windows => "powershell"@,
        Platform::Linux => "tar"@,
    }
}

/// The arguments with which the extractor unpacks `input` into `output`,
/// overwriting what is there where it can be told to.
pub open spec fn extractor_args(platform: Platform, input: Seq<char>, output: Seq<char>) -> Seq<
    Seq<char>,
> {
    match platform {
        Platform::Windows => seq![
            "-Command"@,
            "Expand-Archive"@,
            input,
            "-DestinationPath"@,
            output,
            "-Force"@,
        ],
        Platform::Linux => seq!["xf"@, input, "-C"@, output],
    }
}

/// How to unpack the archive `input` into the directory `output`: a zip
/// archive on one platform, a tar archive on the other.
pub fn extractor(platform: Platform, input: &str, output: &str) -> (r: Invocation)
    ensures
        r.program@ == extractor_program(platform),
        r.args@.len() == extractor_args(platform, input@, output@).len(),
        forall|i: int|
            0 <= i < r.args@.len() ==> #[trigger] r.args@[i]@ == extractor_args(
                platform,
                input@,
                output@,
            )[i],
{
    let mut args: Vec<String> = Vec::new();
    match platform {
        Platform::Windows => {
            args.push("-Command".to_owned());
            args.push("Expand-Archive".to_owned());
            args.push(input.to_owned());
            args.push("-DestinationPath".to_owned());
            args.push(output.to_owned());
            args.push("-Force".to_owned());
            Invocation { program: "powershell".to_owned(), args }
        },
        Platform::Linux => {
            args.push("xf".to_owned());
            args.push(input.to_owned());
            args.push("-C".to_owned());
            args.push(output.to_owned());
            Invocation { program: "tar".to_owned(), args }
        },
    }
}

/// How a run of the extractor ended.
#[derive(Debug)]
pub enum ExtractorRun {
    /// It ran, and exited with this code, or with none where it was killed.
    Exited { code: Option<i32> },
    /// It could not be started.
    NotStarted { message: String },
}

/// Judges a run of the extractor on `archive`: only an exit with code 0 is a
/// success.
pub fn extraction_result(archive: String, run: ExtractorRun) -> (r: Result<(), PipelineError>)
    ensures
        r == (match run {
            ExtractorRun::Exited { code } => if code == Some(0i32) {
                Ok(())
            } else {
                Err(PipelineError::ExtractorFailed { archive, code })
            },
            ExtractorRun::NotStarted { message } => Err(
                PipelineError::ExtractorNotRun { archive, message },
            ),
        }),
{
    match run {
        ExtractorRun::Exited { code } => match code {
            Some(c) => {
                if c == 0 {
                    Ok(())
                } else {
                    Err(PipelineError::ExtractorFailed { archive, code })
                }
            },
            None => Err(PipelineError::ExtractorFailed { archive, code }),
        },
        ExtractorRun::NotStarted { message } => Err(
            PipelineError::ExtractorNotRun { archive, message },
        ),
    }
}

/// Whether the archives of a platform unpack into a directory of their own,
/// out of which the files have to be lifted.
pub fn unpacks_nested(platform: Platform) -> (r: bool)
    ensures
        r == (platform == Platform::Linux),
{
    match platform {
        Platform::Windows => false,
        Platform::Linux => true,
    }
}

/// The name of the directory that an archive unpacks into: the archive's
/// file name without the platform's archive extension.
pub open spec fn inner_directory_of(archive: Seq<char>, platform: Platform) -> Seq<char> {
    without_suffix(archive, platform.extension())
}

/// The name of the directory that an archive unpacks into: the archive's file
/// name without the platform's archive extension. Dots elsewhere in the name,
/// as those of a version, stay.
pub fn inner_directory(archive: &str, platform: Platform) -> (r: &str)
    ensures
        r@ == inner_directory_of(archive@, platform),
{
    str_without_suffix(archive, platform.archive_extension())
}

/// An archive that is picked for a platform carries that platform's
/// extension: its name is the name of its inner directory with the extension
/// behind it.
pub proof fn law_selected_archive_has_its_extension(archive: Seq<char>, platform: Platform)
    requires
        ends_with(archive, platform.suffix()),
    ensures
        ends_with(archive, platform.extension()),
        inner_directory_of(archive, platform) + platform.extension() == archive,
{
    reveal_strlit("windows-msvc.zip");
    reveal_strlit("linux-gnu.tar.xz");
    reveal_strlit(".zip");
    reveal_strlit(".tar.xz");
    let suffix = platform.suffix();
    let extension = platform.extension();
    let n = archive.len() as int;
    let tail = archive.subrange(n - suffix.len(), n);
    assert(tail == suffix);
    assert(suffix.subrange(suffix.len() - extension.len(), suffix.len() as int) =~= extension);
    assert(archive.subrange(n - extension.len(), n) =~= tail.subrange(
        suffix.len() - extension.len(),
        suffix.len() as int,
    ));
    assert(archive.subrange(0, n - extension.len()) + extension =~= archive);
}

/// The path of a hoisted file: `name` in the directory `output`, the one
/// that the archive was unpacked into.
pub fn hoist_target(output: &str, separator: char, name: &str) -> (r: String)
    ensures
        r@ == child_path(output@, separator, name@),
{
    child(output, separator, name)
}

/// What a directory holds under one name.
#[derive(Debug)]
pub struct DirEntry {
    pub name: String,
    /// Whether it is a regular file.
    pub is_file: bool,
}

/// The names of the regular files among `entries`, in their order.
pub open spec fn regular_files(entries: Seq<DirEntry>) -> Seq<Seq<char>>
    decreases entries.len(),
{
    if entries.len() == 0 {
        Seq::empty()
    } else if entries.last().is_file {
        regular_files(entries.drop_last()).push(entries.last().name@)
    } else {
        regular_files(entries.drop_last())
    }
}

/// The files to lift out of the directory that an archive unpacked into, up
/// to where the archive was unpacked: every regular file, and nothing else.
/// Once they are moved, the directory is removed.
pub fn files_to_hoist(entries: &Vec<DirEntry>) -> (r: Vec<String>)
    ensures
        r@.len() == regular_files(entries@).len(),
        forall|i: int| 0 <= i < r@.len() ==> #[trigger] r@[i]@ == regular_files(entries@)[i],
{
    let mut names: Vec<String> = Vec::new();
    let mut i: usize = 0;
    proof {
        assert(entries@.subrange(0, 0) =~= Seq::<DirEntry>::empty());
    }
    while i < entries.len()
        invariant
            i <= entries.len(),
            names@.len() == regular_files(entries@.subrange(0, i as int)).len(),
            forall|k: int|
                0 <= k < names@.len() ==> #[trigger] names@[k]@ == regular_files(
                    entries@.subrange(0, i as int),
                )[k],
        decreases entries.len() - i,
    {
        proof {
            let upto = entries@.subrange(0, i + 1);
            assert(upto.last() == entries@[i as int]);
            assert(upto.drop_last() =~= entries@.subrange(0, i as int));
        }
        if entries[i].is_file {
            names.push(entries[i].name.clone());
        }
        i = i + 1;
    }
    proof {
        assert(entries@.subrange(0, entries@.len() as int) =~= entries@);
    }
    names
}

/// Where a directory holds regular files only, all that it holds is hoisted,
/// name by name in its order: nothing stays behind in it.
pub proof fn law_hoist_empties_directory(entries: Seq<DirEntry>)
    requires
        forall|i: int| 0 <= i < entries.len() ==> (#[trigger] entries[i]).is_file,
    ensures
        regular_files(entries).len() == entries.len(),
        forall|i: int|
            0 <= i < entries.len() ==> regular_files(entries)[i] == (#[trigger] entries[i]).name@,
    decreases entries.len(),
{
    if entries.len() > 0 {
        let front = entries.drop_last();
        assert forall|i: int| 0 <= i < front.len() implies (#[trigger] front[i]).is_file by {
            assert(front[i] == entries[i]);
        }
        law_hoist_empties_directory(front);
        assert forall|i: int| 0 <= i < entries.len() implies regular_files(entries)[i]
            == (#[trigger] entries[i]).name@ by {
            if i < front.len() {
                assert(front[i] == entries[i]);
            }
        }
    }
}

/// Whether `entries` hold a regular file called `name`.
pub open spec fn holds_regular_file(entries: Seq<DirEntry>, name: Seq<char>) -> bool {
    exists|i: int|
        0 <= i < entries.len() && (#[trigger] entries[i]).is_file && entries[i].name@ == name
}

/// Every regular file of a directory is among the files to hoist, and every
/// file to hoist is a regular file of the directory.
pub proof fn law_hoist_takes_every_regular_file(entries: Seq<DirEntry>)
    ensures
        forall|i: int|
            0 <= i < entries.len() && (#[trigger] entries[i]).is_file ==> regular_files(
                entries,
            ).contains(entries[i].name@),
        forall|k: int|
            0 <= k < regular_files(entries).len() ==> holds_regular_file(
                entries,
                #[trigger] regular_files(entries)[k],
            ),
    decreases entries.len(),
{
    if entries.len() > 0 {
        let front = entries.drop_last();
        let all = regular_files(entries);
        let last = entries.len() - 1;
        law_hoist_takes_every_regular_file(front);
        assert forall|i: int|
            0 <= i < entries.len() && (#[trigger] entries[i]).is_file implies all.contains(
            entries[i].name@,
        ) by {
            if i < last {
                assert(front[i] == entries[i]);
                assert(regular_files(front).contains(front[i].name@));
                let k = regular_files(front).index_of(front[i].name@);
                assert(all[k] == entries[i].name@);
            } else {
                assert(all[all.len() - 1] == entries[i].name@);
            }
        }
        assert forall|k: int| 0 <= k < all.len() implies holds_regular_file(
            entries,
            #[trigger] all[k],
        ) by {
            if k < regular_files(front).len() {
                assert(all[k] == regular_files(front)[k]);
                assert(holds_regular_file(front, regular_files(front)[k]));
                let i = choose|i: int|
                    0 <= i < front.len() && (#[trigger] front[i]).is_file && front[i].name@
                        == regular_files(front)[k];
                assert(entries[i] == front[i]);
            } else {
                assert(entries[last].is_file && entries[last].name@ == all[k]);
            }
        }
    }
}

} // verus!
