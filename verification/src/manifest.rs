//! The project manifest as the session keeps it, and the build configuration
//! that the compiler derives from it.

use crate::error::LspError;
use crate::paths::{
    file_stem, has_root, parent, path_file_stem, path_has_root, path_parent, path_starts_with,
    path_strip_prefix, starts_with, strip_prefix,
};
use vstd::prelude::*;

verus! {

/// The compiler's build configuration. The library hands it on and never
/// looks inside.
#[verifier::external_type_specification]
#[verifier::external_body]
pub struct ExBuildConfig(sway_core::BuildConfig);

/// What the session knows of the manifest of its project: the directory that
/// holds the manifest file, and the path of the project's entry file.
#[derive(Debug)]
pub struct Manifest {
    pub dir: String,
    pub entry_path: String,
}

impl Clone for Manifest {
    fn clone(&self) -> (res: Self)
        ensures
            res == *self,
    {
        Manifest { dir: self.dir.clone(), entry_path: self.entry_path.clone() }
    }
}

/// The directory above the manifest directory, or the manifest directory
/// itself where nothing is above it.
pub open spec fn project_parent(dir: Seq<char>) -> Seq<char> {
    match path_parent(dir) {
        Some(above) => above,
        None => dir,
    }
}

/// The entry file relative to the directory above the manifest directory,
/// if it lies below that directory.
pub open spec fn entry_file_name(dir: Seq<char>, entry_path: Seq<char>) -> Option<Seq<char>> {
    path_strip_prefix(entry_path, project_parent(dir))
}

/// Whether the compiler can make a configuration for an entry file with the
/// relative name `file_name` in the manifest directory `dir`: the directory
/// is given from the root, and the name is either given from the root too or
/// begins with the directory's own name.
pub open spec fn layout_supported(dir: Seq<char>, file_name: Seq<char>) -> bool {
    path_has_root(dir) && (path_has_root(file_name) || (path_parent(dir) is Some && (
    match path_file_stem(dir) {
        Some(stem) => path_starts_with(file_name, stem),
        None => false,
    })))
}

/// Whether a build configuration can be derived from a manifest in `dir`
/// with the entry file `entry_path`.
pub open spec fn derives_build_config(dir: Seq<char>, entry_path: Seq<char>) -> bool {
    match entry_file_name(dir, entry_path) {
        Some(file_name) => layout_supported(dir, file_name),
        None => false,
    }
}

/// Calls `forc_pkg::sway_build_config` with a build profile of the given
/// flags. That function fails where the entry path does not lie below the
/// directory above the manifest directory, and the contract says so. Where it
/// does lie below, the compiler's constructor aborts on a layout that
/// `layout_supported` excludes; the precondition keeps those away.
#[verifier::external_body]
fn derive_build_config(
    dir: &str,
    entry_path: &str,
    print_ir: bool,
    print_finalized_asm: bool,
    print_intermediate_asm: bool,
    silent: bool,
    time_phases: bool,
) -> (res: Option<sway_core::BuildConfig>)
    requires
        match entry_file_name(dir@, entry_path@) {
            Some(file_name) => layout_supported(dir@, file_name),
            None => true,
        },
    ensures
        res is Some <==> entry_file_name(dir@, entry_path@) is Some,
{
    let profile = forc_pkg::BuildProfile {
        print_ir,
        print_finalized_asm,
        print_intermediate_asm,
        silent,
        time_phases,
    };
    forc_pkg::sway_build_config(
        std::path::Path::new(dir),
        std::path::Path::new(entry_path),
        &profile,
    ).ok()
}

impl Manifest {
    /// The manifest of the project in `dir` whose entry file is
    /// `entry_path`.
    pub fn new(dir: String, entry_path: String) -> (manifest: Manifest)
        ensures
            manifest.dir == dir,
            manifest.entry_path == entry_path,
    {
        Manifest { dir, entry_path }
    }

    /// Whether the compiler can make a build configuration from this
    /// manifest.
    pub open spec fn derives(&self) -> bool {
        derives_build_config(self.dir@, self.entry_path@)
    }

    /// Derives the compiler's build configuration, for a silent build that
    /// prints none of its intermediate forms. Fails with `BuildConfig`
    /// exactly where none can be derived: the entry file does not lie below
    /// the directory above the manifest directory, or the layout is one that
    /// the compiler does not take.
    pub fn build_config(&self) -> (res: Result<sway_core::BuildConfig, LspError>)
        ensures
            res is Ok <==> self.derives(),
            res is Err ==> res->Err_0 is BuildConfig,
    {
        let dir = self.dir.as_str();
        let entry_path = self.entry_path.as_str();
        let above = parent(dir);
        let has_parent = above.is_some();
        let base = match above {
            Some(path) => path,
            None => self.dir.clone(),
        };
        let supported = match strip_prefix(entry_path, base.as_str()) {
            Some(file_name) => {
                has_root(dir) && (has_root(file_name.as_str()) || (has_parent && match file_stem(
                    dir,
                ) {
                    Some(stem) => starts_with(file_name.as_str(), stem.as_str()),
                    None => false,
                }))
            },
            None => false,
        };
        if !supported {
            return Err(LspError::BuildConfig);
        }
        match derive_build_config(dir, entry_path, false, false, false, true, false) {
            Some(config) => Ok(config),
            None => Err(LspError::BuildConfig),
        }
    }
}

} // verus!
