//! Command lines of tools that several formats share.

use crate::command::{CommandSpec, CommandView};
use vstd::prelude::*;
use vstd::string::*;

verus! {

/// `unar`: output directory, then the archive; quiet unless verbose.
pub open spec fn unar_view(
    binary: Seq<char>,
    file: Seq<char>,
    output_dir: Seq<char>,
    verbose: bool,
) -> CommandView {
    CommandView::new(binary).arg("-o"@).arg(output_dir).arg(file).arg_if(!verbose, "-q"@)
}

/// The `unar` command line.
pub fn unar_command(binary: &str, file: &str, output_dir: &str, verbose: bool) -> (r: CommandSpec)
    ensures
        r@ == unar_view(binary@, file@, output_dir@, verbose),
{
    let mut cmd = CommandSpec::new(binary);
    cmd.arg("-o");
    cmd.arg(output_dir);
    cmd.arg(file);
    cmd.arg_if(!verbose, "-q");
    cmd
}

/// `7z x -y -o<dir> <file>`; without progress output unless verbose.
pub open spec fn seven_zip_view(
    binary: Seq<char>,
    file: Seq<char>,
    output_dir: Seq<char>,
    verbose: bool,
) -> CommandView {
    CommandView::new(binary).arg("x"@).arg("-y"@).arg("-o"@ + output_dir).arg(file).arg_if(
        !verbose,
        "-bso0"@,
    ).arg_if(!verbose, "-bd"@)
}

/// The `7z` command line.
pub fn seven_zip_command(binary: &str, file: &str, output_dir: &str, verbose: bool) -> (r:
    CommandSpec)
    ensures
        r@ == seven_zip_view(binary@, file@, output_dir@, verbose),
{
    let mut cmd = CommandSpec::new(binary);
    cmd.arg("x");
    cmd.arg("-y");
    let target = String::from_str("-o").concat(output_dir);
    cmd.arg(target.as_str());
    cmd.arg(file);
    cmd.arg_if(!verbose, "-bso0");
    cmd.arg_if(!verbose, "-bd");
    cmd
}

/// `bsdtar -xf <file> -C <dir>`, with `-v` when verbose. `tar` and `gtar`
/// take the same line.
pub open spec fn bsdtar_view(
    binary: Seq<char>,
    file: Seq<char>,
    output_dir: Seq<char>,
    verbose: bool,
) -> CommandView {
    CommandView::new(binary).arg("-xf"@).arg(file).arg("-C"@).arg(output_dir).arg_if(
        verbose,
        "-v"@,
    )
}

/// The `bsdtar` command line.
pub fn bsdtar_command(binary: &str, file: &str, output_dir: &str, verbose: bool) -> (r:
    CommandSpec)
    ensures
        r@ == bsdtar_view(binary@, file@, output_dir@, verbose),
{
    let mut cmd = CommandSpec::new(binary);
    cmd.arg("-xf");
    cmd.arg(file);
    cmd.arg("-C");
    cmd.arg(output_dir);
    cmd.arg_if(verbose, "-v");
    cmd
}

/// A single-stream decompressor run inside the output directory: `-d` where
/// the tool is the compressor itself, `-k` to keep the input, `-v` when
/// verbose, then the file.
pub open spec fn stream_view(
    decompress_flag: bool,
    binary: Seq<char>,
    file: Seq<char>,
    output_dir: Seq<char>,
    verbose: bool,
) -> CommandView {
    CommandView::new(binary).arg_if(decompress_flag, "-d"@).arg("-k"@).arg_if(verbose, "-v"@).dir(
        output_dir,
    ).arg(file)
}

/// The command line of a single-stream decompressor.
pub fn stream_command(
    decompress_flag: bool,
    binary: &str,
    file: &str,
    output_dir: &str,
    verbose: bool,
) -> (r: CommandSpec)
    ensures
        r@ == stream_view(decompress_flag, binary@, file@, output_dir@, verbose),
{
    let mut cmd = CommandSpec::new(binary);
    cmd.arg_if(decompress_flag, "-d");
    cmd.arg("-k");
    cmd.arg_if(verbose, "-v");
    cmd.dir(output_dir);
    cmd.arg(file);
    cmd
}

} // verus!
