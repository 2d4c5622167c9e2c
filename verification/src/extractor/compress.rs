//! Files compressed with the classic `compress`.

use crate::command::{refuse, refuse_plain, AdapterError, CommandSpec, CommandView};
use crate::extractor::Extractor;
use crate::paths::{join_path, joined_path};
use crate::text::{str_equal, views};
use crate::trust::Platform;
use vstd::prelude::*;
use vstd::string::*;

verus! {

/// The adapter for `.Z` files, which `uncompress` unpacks in place: the input
/// is first copied into the output directory.
pub struct CompressExtractor;

impl Extractor for CompressExtractor {
    open spec fn extensions(&self) -> Seq<Seq<char>> {
        seq!["z"@]
    }

    open spec fn candidates(&self, platform: Platform) -> Seq<Seq<char>> {
        seq!["uncompress"@]
    }

    open spec fn command(
        &self,
        tool: Option<Seq<char>>,
        binary: Seq<char>,
        file: Seq<char>,
        file_name: Option<Seq<char>>,
        output_dir: Seq<char>,
        verbose: bool,
    ) -> Result<CommandView, Seq<char>> {
        match (tool, file_name) {
            (None, _) => Err("Invalid binary path"@),
            (Some(t), None) => if t == "uncompress"@ {
                Err("Invalid archive path"@)
            } else {
                Err("Unsupported compress extraction tool: "@ + t)
            },
            (Some(t), Some(name)) => if t == "uncompress"@ {
                let target = joined_path(output_dir, name);
                Ok(CommandView::new(binary).dir(output_dir).arg(target).staged(target))
            } else {
                Err("Unsupported compress extraction tool: "@ + t)
            },
        }
    }

    fn file_extensions(&self) -> (r: Vec<&'static str>) {
        let r = vec!["z"];
        assert(views(r@) =~= self.extensions());
        r
    }

    fn binary_names(&self, platform: Platform) -> (r: Vec<&'static str>) {
        let r = vec!["uncompress"];
        assert(views(r@) =~= self.candidates(platform));
        r
    }

    fn command_for(
        &self,
        tool: &Option<String>,
        binary: &str,
        file: &str,
        file_name: &Option<String>,
        output_dir: &str,
        verbose: bool,
    ) -> (r: Result<CommandSpec, AdapterError>) {
        let t = match tool {
            None => {
                return refuse_plain("Invalid binary path");
            },
            Some(name) => name.as_str(),
        };
        if !str_equal(t, "uncompress") {
            return refuse("Unsupported compress extraction tool: ", t);
        }
        match file_name {
            None => refuse_plain("Invalid archive path"),
            Some(name) => {
                let target = join_path(output_dir, name.as_str());
                let mut cmd = CommandSpec::new(binary);
                cmd.dir(output_dir);
                cmd.arg(target.as_str());
                cmd.staged(target.as_str());
                Ok(cmd)
            },
        }
    }
}

} // verus!
