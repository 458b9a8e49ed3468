//! The source instrumenter's backup and restore model. The entry
//! file and its backup are mirrored as byte strings; injection takes
//! the single backup and prepends generated code, later rewrites
//! prepend more without touching the backup, and restore puts the
//! original bytes back whatever happened in between.
use vstd::prelude::*;

use crate::text::replace_all;
use crate::text::replace_all_spec;

verus! {

/// The two files the instrumenter owns, as byte strings: the entry
/// file's current content and the backup, when one exists.
pub struct EntryFileModel {
    pub content: Vec<u8>,
    pub backup: Option<Vec<u8>>,
}

/// A model state at the specification level: content and backup.
pub open spec fn view_of(m: &EntryFileModel) -> (Seq<u8>, Option<Seq<u8>>) {
    (
        m.content@,
        match m.backup {
            Some(b) => Some(b@),
            None => None,
        },
    )
}

/// Injection: the original content becomes the backup and the
/// fragment is prepended.
pub open spec fn spec_inject(content: Seq<u8>, fragment: Seq<u8>) -> (Seq<u8>, Option<Seq<u8>>) {
    (fragment + content, Some(content))
}

/// A later rewrite prepends more text and leaves the backup alone.
pub open spec fn spec_prepend(
    m: (Seq<u8>, Option<Seq<u8>>),
    fragment: Seq<u8>,
) -> (Seq<u8>, Option<Seq<u8>>) {
    (fragment + m.0, m.1)
}

/// Any number of later rewrites, applied in order.
pub open spec fn spec_apply_prepends(
    m: (Seq<u8>, Option<Seq<u8>>),
    fragments: Seq<Seq<u8>>,
) -> (Seq<u8>, Option<Seq<u8>>)
    decreases fragments.len(),
{
    if fragments.len() == 0 {
        m
    } else {
        spec_prepend(spec_apply_prepends(m, fragments.drop_last()), fragments.last())
    }
}

/// What restore leaves on disk as the entry file.
pub open spec fn spec_restore(m: (Seq<u8>, Option<Seq<u8>>)) -> Seq<u8> {
    match m.1 {
        Some(b) => b,
        None => m.0,
    }
}

fn copy_bytes(v: &Vec<u8>) -> (r: Vec<u8>)
    ensures
        r@ == v@,
{
    let mut out: Vec<u8> = Vec::new();
    let mut i: usize = 0;
    while i < v.len()
        invariant
            0 <= i <= v@.len(),
            out@ =~= v@.take(i as int),
        decreases v@.len() - i,
    {
        out.push(v[i]);
        proof {
            assert(out@ =~= v@.take(i + 1));
        }
        i = i + 1;
    }
    proof {
        assert(v@.take(v@.len() as int) =~= v@);
    }
    out
}

fn concat_bytes(a: &Vec<u8>, b: &Vec<u8>) -> (r: Vec<u8>)
    ensures
        r@ == a@ + b@,
{
    let mut out = copy_bytes(a);
    let mut i: usize = 0;
    while i < b.len()
        invariant
            0 <= i <= b@.len(),
            out@ =~= a@ + b@.take(i as int),
        decreases b@.len() - i,
    {
        out.push(b[i]);
        proof {
            assert(out@ =~= a@ + b@.take(i + 1));
        }
        i = i + 1;
    }
    proof {
        assert(b@.take(b@.len() as int) =~= b@);
    }
    out
}

impl EntryFileModel {
    /// The model of an entry file as read from disk, with no backup.
    pub fn new(content: Vec<u8>) -> (r: Self)
        ensures
            r.content@ == content@,
            r.backup is None,
    {
        EntryFileModel { content, backup: None }
    }

    /// Take the single backup and prepend the generated fragment.
    /// Never called while a backup exists: a second injection before
    /// restore would corrupt recovery.
    pub fn inject(&mut self, fragment: &Vec<u8>)
        requires
            old(self).backup is None,
        ensures
            view_of(final(self)) == spec_inject(old(self).content@, fragment@),
    {
        let saved = copy_bytes(&self.content);
        let rewritten = concat_bytes(fragment, &self.content);
        self.backup = Some(saved);
        self.content = rewritten;
    }

    /// Prepend one more fragment without touching the backup, as the
    /// later instrumentation steps do.
    pub fn prepend(&mut self, fragment: &Vec<u8>)
        ensures
            view_of(final(self)) == spec_prepend(view_of(old(self)), fragment@),
    {
        let rewritten = concat_bytes(fragment, &self.content);
        self.content = rewritten;
    }

    /// Put the backup back over the entry file and delete it; without
    /// a backup this changes nothing.
    pub fn restore(&mut self)
        ensures
            final(self).backup is None,
            final(self).content@ == spec_restore(view_of(old(self))),
    {
        match self.backup.take() {
            Some(b) => {
                self.content = b;
            },
            None => {},
        }
    }
}

/// After termination the entry file is byte-identical to its
/// pre-job content: one injection, any number of later rewrites,
/// then restore recover the original bytes exactly.
pub proof fn lemma_restore_recovers_original(
    original: Seq<u8>,
    first: Seq<u8>,
    later: Seq<Seq<u8>>,
)
    ensures
        spec_restore(spec_apply_prepends(spec_inject(original, first), later)) == original,
{
    lemma_prepends_keep_backup(spec_inject(original, first), later);
}

/// Later rewrites never touch the backup.
pub proof fn lemma_prepends_keep_backup(m: (Seq<u8>, Option<Seq<u8>>), fragments: Seq<Seq<u8>>)
    ensures
        spec_apply_prepends(m, fragments).1 == m.1,
    decreases fragments.len(),
{
    if fragments.len() > 0 {
        lemma_prepends_keep_backup(m, fragments.drop_last());
    }
}

/// The deterministic, path-flattened backup file name beside the
/// project root: separators become underscores so nested entry
/// files cannot collide with files of the same name elsewhere.
pub open spec fn spec_backup_file_name(entry: Seq<char>) -> Seq<char> {
    "_backup_"@ + replace_all_spec(replace_all_spec(entry, "/"@, "_"@), "\\"@, "_"@)
}

/// The backup file name for one entry file.
pub fn backup_file_name(entry: &str) -> (r: String)
    ensures
        r@ == spec_backup_file_name(entry@),
{
    let flattened = replace_all(entry, "/", "_");
    let flattened = replace_all(flattened.as_str(), "\\", "_");
    let mut out = String::from_str("_backup_");
    out.append(flattened.as_str());
    out
}

} // verus!
