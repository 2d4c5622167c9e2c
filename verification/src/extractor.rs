//! Format adapters: which files each handles, which tools can unpack them,
//! and how each tool is invoked.

use crate::command::{built_view, AdapterError, CommandSpec, CommandView};
use crate::error::{DispatchError, ErrorView};
use crate::paths::{file_name, path_file_name};
use crate::resolve::{
    first_usable, lemma_unknown_platform_uses_nothing, probe_binaries, select_binary, Probe,
};
use crate::text::{opt_view, views};
use crate::trust::Platform;
use vstd::prelude::*;

pub mod arj;
pub mod bzip2;
pub mod cab;
pub mod compress;
pub mod gzip;
pub mod iso;
pub mod lha;
pub mod lzip;
pub mod lzma;
pub mod lzop;
pub mod pkg;
pub mod rar;
pub mod sevenz;
pub mod sfx;
pub mod tar;
pub mod tools;
pub mod xz;
pub mod zip;
pub mod zstd;

verus! {

/// What the library needs from the adapter of one archive format.
pub trait Extractor {
    /// The extension keys that the adapter answers for.
    spec fn extensions(&self) -> Seq<Seq<char>>;

    /// The names of the tools that can unpack the format, best first.
    spec fn candidates(&self, platform: Platform) -> Seq<Seq<char>>;

    /// The invocation of `binary`, whose final component is `tool`, that
    /// unpacks `file`, whose final component is `file_name`, into
    /// `output_dir`; or the message of the refusal.
    spec fn command(
        &self,
        tool: Option<Seq<char>>,
        binary: Seq<char>,
        file: Seq<char>,
        file_name: Option<Seq<char>>,
        output_dir: Seq<char>,
        verbose: bool,
    ) -> Result<CommandView, Seq<char>>;

    /// The extension keys that the adapter answers for.
    fn file_extensions(&self) -> (r: Vec<&'static str>)
        ensures
            views(r@) == self.extensions(),
    ;

    /// The names of the tools that can unpack the format, best first.
    fn binary_names(&self, platform: Platform) -> (r: Vec<&'static str>)
        ensures
            views(r@) == self.candidates(platform),
    ;

    /// Builds the invocation from the two paths and their final components.
    fn command_for(
        &self,
        tool: &Option<String>,
        binary: &str,
        file: &str,
        file_name: &Option<String>,
        output_dir: &str,
        verbose: bool,
    ) -> (r: Result<CommandSpec, AdapterError>)
        ensures
            built_view(r) == self.command(
                opt_view(*tool),
                binary@,
                file@,
                opt_view(*file_name),
                output_dir@,
                verbose,
            ),
    ;

    /// Builds the invocation of `binary` that unpacks `file` into
    /// `output_dir`.
    fn build_command(&self, binary: &str, file: &str, output_dir: &str, verbose: bool) -> (r:
        Result<CommandSpec, AdapterError>)
        ensures
            built_view(r) == self.command(
                path_file_name(binary@),
                binary@,
                file@,
                path_file_name(file@),
                output_dir@,
                verbose,
            ),
    {
        let tool = file_name(binary);
        let name = file_name(file);
        self.command_for(&tool, binary, file, &name, output_dir, verbose)
    }

    /// Looks on the host for each candidate tool and gives the place of the
    /// first that is installed and trusted: one probe is made for each
    /// candidate, and a place that is given is that of the first usable
    /// probe. What the probes find depends on the host. Where nothing can be
    /// used, the error names the adapter's formats and every candidate; with
    /// no candidates, or on a platform without an allow-list, that is always
    /// so.
    fn get_verified_binary(&self, platform: Platform) -> (r: Result<String, DispatchError>)
        ensures
            r matches Err(e) ==> e@ == (ErrorView::NoTrustedTool {
                formats: self.extensions(),
                candidates: self.candidates(platform),
            }),
            r matches Ok(path) ==> exists|probes: Seq<Probe>, i: int|
                probes.len() == self.candidates(platform).len() && #[trigger] first_usable(
                    platform,
                    probes,
                    i,
                ) && Some(path@) == probes[i]@.located,
            self.candidates(platform).len() == 0 ==> r is Err,
            platform == Platform::Other ==> r is Err,
    {
        let names = self.binary_names(platform);
        let formats = self.file_extensions();
        let probes = probe_binaries(&names);
        proof {
            lemma_unknown_platform_uses_nothing(probes@);
        }
        let r = select_binary(platform, &formats, &names, &probes);
        proof {
            assert(views(names@).len() == names@.len());
            if r is Ok {
                let path = r->Ok_0;
                let i = choose|i: int|
                    first_usable(platform, probes@, i) && Some(path@) == (#[trigger] probes@[i])@.located;
                assert(first_usable(platform, probes@, i) && Some(path@) == probes@[i]@.located);
            }
        }
        r
    }
}

} // verus!
