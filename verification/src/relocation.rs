//! Artifact relocation: after a successful local build, the stale artifact at
//! the canonical library path is removed and the freshly built artifact is
//! moved there.  The module states the effect over a model of the filesystem
//! (a map from paths to file contents), computes the exact operation list for
//! the shell to execute, and proves that the two agree and that relocation is
//! idempotent.

use vstd::prelude::*;

verus! {

/// One relocation: move the file at `source_path` into `destination_dir`,
/// replacing whatever `destination_path` already holds.
/// `destination_path` is the file's final name inside `destination_dir`.
#[derive(Clone, Debug, PartialEq, Eq)]
pub struct Relocation {
    pub source_path: String,
    pub destination_dir: String,
    pub destination_path: String,
}

/// One filesystem operation of a relocation.
#[derive(Clone, Debug, PartialEq, Eq)]
pub enum FsOp {
    /// Remove the file at the path.
    RemoveFile { path: String },
    /// Move the file at `from` to `to`; the move does not overwrite an
    /// existing destination, so a `RemoveFile` must have cleared it first.
    MoveFile { from: String, to: String },
}

/// The filesystem model: each existing file's path mapped to its contents.
pub open spec fn apply_op(fs: Map<Seq<char>, Seq<u8>>, op: FsOp) -> Map<Seq<char>, Seq<u8>> {
    match op {
        FsOp::RemoveFile { path } => fs.remove(path@),
        FsOp::MoveFile { from, to } => {
            if fs.contains_key(from@) {
                fs.remove(from@).insert(to@, fs[from@])
            } else {
                fs
            }
        },
    }
}

/// The filesystem after a list of operations, applied in order.
pub open spec fn apply_ops(fs: Map<Seq<char>, Seq<u8>>, ops: Seq<FsOp>) -> Map<Seq<char>, Seq<u8>>
    decreases ops.len(),
{
    if ops.len() == 0 {
        fs
    } else {
        apply_ops(apply_op(fs, ops[0]), ops.drop_first())
    }
}

/// The effect of one relocation on the filesystem model: where the source
/// exists, the destination is replaced by the source's contents and the
/// source is gone; where the source is missing (it was already moved), the
/// filesystem is unchanged rather than the relocation failing.
pub open spec fn relocate_spec(
    fs: Map<Seq<char>, Seq<u8>>,
    source: Seq<char>,
    destination: Seq<char>,
) -> Map<Seq<char>, Seq<u8>> {
    if fs.contains_key(source) {
        fs.remove(destination).remove(source).insert(destination, fs[source])
    } else {
        fs
    }
}

impl Relocation {
    /// The operations the shell must perform for this relocation, given
    /// whether a file already exists at the destination: remove the stale
    /// destination first (the move primitive does not overwrite), then move
    /// the source into place.
    pub fn operations(&self, destination_exists: bool) -> (r: Vec<FsOp>)
        ensures
            destination_exists ==> r@ =~= seq![
                (FsOp::RemoveFile { path: self.destination_path }),
                (FsOp::MoveFile { from: self.source_path, to: self.destination_path }),
            ],
            !destination_exists ==> r@ =~= seq![
                (FsOp::MoveFile { from: self.source_path, to: self.destination_path }),
            ],
    {
        let mut ops: Vec<FsOp> = Vec::new();
        if destination_exists {
            ops.push(FsOp::RemoveFile { path: self.destination_path.clone() });
        }
        ops.push(
            FsOp::MoveFile {
                from: self.source_path.clone(),
                to: self.destination_path.clone(),
            },
        );
        ops
    }
}

/// Executing the computed operations on a filesystem where the destination's
/// presence matches what the caller observed has exactly the relocation's
/// modeled effect.
pub proof fn lemma_operations_perform_relocation(
    fs: Map<Seq<char>, Seq<u8>>,
    ops: Seq<FsOp>,
    source: Seq<char>,
    destination: Seq<char>,
    destination_exists: bool,
)
    requires
        fs.contains_key(source),
        destination_exists == fs.contains_key(destination),
        source != destination,
        destination_exists ==> ops.len() == 2 && (ops[0] matches FsOp::RemoveFile { path }
            && path@ == destination) && (ops[1] matches FsOp::MoveFile { from, to } && from@
            == source && to@ == destination),
        !destination_exists ==> ops.len() == 1 && (ops[0] matches FsOp::MoveFile { from, to }
            && from@ == source && to@ == destination),
    ensures
        apply_ops(fs, ops) =~= relocate_spec(fs, source, destination),
{
    if destination_exists {
        let fs1 = apply_op(fs, ops[0]);
        assert(fs1 =~= fs.remove(destination));
        let rest = ops.drop_first();
        assert(rest[0] == ops[1]);
        let fs2 = apply_op(fs1, rest[0]);
        assert(rest.drop_first().len() == 0);
        assert(apply_ops(fs2, rest.drop_first()) == fs2);
        assert(apply_ops(fs1, rest) == fs2);
        assert(apply_ops(fs, ops) == fs2);
        assert(fs2 =~= fs.remove(destination).remove(source).insert(destination, fs[source]));
    } else {
        let fs1 = apply_op(fs, ops[0]);
        let rest = ops.drop_first();
        assert(rest.len() == 0);
        assert(apply_ops(fs1, rest) == fs1);
        assert(apply_ops(fs, ops) == fs1);
        assert(fs.remove(destination) =~= fs);
        assert(fs1 =~= fs.remove(destination).remove(source).insert(destination, fs[source]));
    }
}

/// After relocating an existing source over a pre-existing destination, the
/// destination's contents equal the source's original contents and the
/// source no longer exists; every other file is untouched.
pub proof fn lemma_relocate_replaces_destination(
    fs: Map<Seq<char>, Seq<u8>>,
    source: Seq<char>,
    destination: Seq<char>,
)
    requires
        fs.contains_key(source),
        source != destination,
    ensures
        relocate_spec(fs, source, destination).contains_key(destination),
        relocate_spec(fs, source, destination)[destination] == fs[source],
        !relocate_spec(fs, source, destination).contains_key(source),
        forall|p: Seq<char>|
            p != source && p != destination ==> (#[trigger] relocate_spec(
                fs,
                source,
                destination,
            ).contains_key(p) <==> fs.contains_key(p)),
        forall|p: Seq<char>|
            p != source && p != destination && fs.contains_key(p) ==> #[trigger] relocate_spec(
                fs,
                source,
                destination,
            )[p] == fs[p],
{
}

/// Relocation is idempotent: applying the same relocation a second time,
/// after the first one moved the source away, changes nothing.
pub proof fn lemma_relocate_idempotent(
    fs: Map<Seq<char>, Seq<u8>>,
    source: Seq<char>,
    destination: Seq<char>,
)
    requires
        source != destination,
    ensures
        relocate_spec(relocate_spec(fs, source, destination), source, destination)
            =~= relocate_spec(fs, source, destination),
{
}

} // verus!
