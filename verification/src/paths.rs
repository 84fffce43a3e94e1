//! The fixed layout of a scratch project on disk: where its main
//! source file is written and where the build's artifacts appear.

use vstd::prelude::*;

verus! {

/// Joins prefix, middle and suffix into one string.
fn join3(prefix: &str, middle: &str, suffix: &str) -> (r: String)
    ensures
        r@ == prefix@ + middle@ + suffix@,
{
    let mut s = String::from_str(prefix);
    s.append(middle);
    s.append(suffix);
    proof {
        assert(s@ =~= prefix@ + middle@ + suffix@);
    }
    s
}

/// The path of the main source file of a scratch project.
pub fn main_file_path(project: &str) -> (r: String)
    ensures
        r@ == "projects/"@ + project@ + "/src/main.sw"@,
{
    join3("projects/", project, "/src/main.sw")
}

/// The path of the generated interface description of a scratch
/// project.
pub fn abi_path(project: &str) -> (r: String)
    ensures
        r@ == "projects/"@ + project@ + "/out/debug/swaypad-abi.json"@,
{
    join3("projects/", project, "/out/debug/swaypad-abi.json")
}

/// The path of the generated bytecode of a scratch project.
pub fn bin_path(project: &str) -> (r: String)
    ensures
        r@ == "projects/"@ + project@ + "/out/debug/swaypad.bin"@,
{
    join3("projects/", project, "/out/debug/swaypad.bin")
}

/// The path of the generated storage-slot layout of a scratch
/// project.
pub fn storage_slots_path(project: &str) -> (r: String)
    ensures
        r@ == "projects/"@ + project@ + "/out/debug/swaypad-storage_slots.json"@,
{
    join3("projects/", project, "/out/debug/swaypad-storage_slots.json")
}

/// The directory of a scratch project, the one deleted after every
/// build.
pub fn project_dir(project: &str) -> (r: String)
    ensures
        r@ == "projects/"@ + project@,
{
    let mut s = String::from_str("projects/");
    s.append(project);
    s
}

} // verus!
