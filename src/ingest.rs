use vstd::prelude::*;

use crate::text::same_text;

verus! {

/// What to do about the destination directory before any job starts.
#[derive(Clone, Copy, Debug, PartialEq, Eq, Structural)]
pub enum DestinationPlan {
    /// It exists and is a directory.
    UseExisting,
    /// Nothing is there: create it.
    Create,
    /// Something other than a directory is there: the batch cannot run.
    NotADirectory,
}

/// Decides about the destination directory from what stands at its path.
pub fn destination_plan(exists: bool, is_dir: bool) -> (r: DestinationPlan)
    ensures
        r == DestinationPlan::UseExisting <==> exists && is_dir,
        r == DestinationPlan::Create <==> !exists,
        r == DestinationPlan::NotADirectory <==> exists && !is_dir,
{
    if !exists {
        DestinationPlan::Create
    } else if is_dir {
        DestinationPlan::UseExisting
    } else {
        DestinationPlan::NotADirectory
    }
}

/// Whether `ext` is one of `listed`, exactly as written.
pub open spec fn is_listed(ext: Seq<char>, listed: Seq<String>) -> bool {
    exists|i: int| 0 <= i < listed.len() && listed[i]@ == ext
}

/// Whether an input path is taken into the batch: it is a file, and its
/// extension is one of `supported`.
pub fn accepts_input(regular_file: bool, ext: &str, supported: &Vec<String>) -> (r: bool)
    ensures
        r == (regular_file && is_listed(ext@, supported@)),
{
    if !regular_file {
        return false;
    }
    let mut i: usize = 0;
    while i < supported.len()
        invariant
            regular_file,
            i <= supported@.len(),
            forall|j: int| 0 <= j < i ==> supported@[j]@ != ext@,
        decreases supported.len() - i,
    {
        if same_text(supported[i].as_str(), ext) {
            assert(supported@[i as int]@ == ext@);
            return true;
        }
        i = i + 1;
    }
    false
}

/// Relies on `rawler::decoders::supported_extensions`: the extensions that
/// some decoder of the codec library reads.
#[verifier::external_body]
fn supported_raw_extensions() -> (r: Vec<String>) {
    rawler::decoders::supported_extensions().iter().map(|e| e.to_string()).collect()
}

/// Whether an input path is taken into the batch: it is a file, and the codec
/// library can decode files with its extension.
pub fn is_raw_input(regular_file: bool, ext: &str) -> (r: bool)
    ensures
        r ==> regular_file,
{
    let supported = supported_raw_extensions();
    accepts_input(regular_file, ext, &supported)
}

} // verus!
