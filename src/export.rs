//! Where a disk export may be written, and the traversal guard on that path.

use vstd::prelude::*;

verus! {

/// Root under which removable media are mounted.
pub const REMOVABLE_MEDIA_ROOT: &'static str = "/media/removable";

/// Root of the per-user home directories.
pub const CRYPTOHOME_USER: &'static str = "/home/user";

/// Directory, under a user's home, that receives downloads.
pub const DOWNLOADS_DIR: &'static str = "Downloads";

/// Extension given to every exported disk image.
pub const QCOW_IMAGE_EXTENSION: &'static str = ".qcow2";

/// `part` appended to `base` as a path: an absolute `part` replaces `base`,
/// otherwise one separator is put between them where `base` lacks one.
pub open spec fn join_spec(base: Seq<char>, part: Seq<char>) -> Seq<char> {
    if part.len() > 0 && part[0] == '/' {
        part
    } else if base.len() == 0 || base.last() == '/' {
        base + part
    } else {
        base + seq!['/'] + part
    }
}

/// The destination of a disk export: on the removable medium at
/// `removable_media` if one is given, else in the owner's downloads.
pub open spec fn export_path_spec(
    user_id_hash: Seq<char>,
    export_name: Seq<char>,
    removable_media: Option<Seq<char>>,
) -> Seq<char> {
    let file_name = export_name + QCOW_IMAGE_EXTENSION@;
    match removable_media {
        Some(media) => join_spec(join_spec(REMOVABLE_MEDIA_ROOT@, media), file_name),
        None => join_spec(
            join_spec(join_spec(CRYPTOHOME_USER@, user_id_hash), DOWNLOADS_DIR@),
            file_name,
        ),
    }
}

/// A segment of `path` that starts at `i` is exactly `..`.
pub open spec fn parent_segment_at(path: Seq<char>, i: int) -> bool {
    &&& 0 <= i
    &&& i + 1 < path.len()
    &&& path[i] == '.'
    &&& path[i + 1] == '.'
    &&& (i == 0 || path[i - 1] == '/')
    &&& (i + 2 == path.len() || path[i + 2] == '/')
}

/// Some component of `path` is a parent-directory reference.
pub open spec fn has_parent_component_spec(path: Seq<char>) -> bool {
    exists|i: int| parent_segment_at(path, i)
}

/// `s` starts at the filesystem root.
pub open spec fn is_absolute_spec(s: Seq<char>) -> bool {
    s.len() > 0 && s[0] == '/'
}

/// `s` is one ordinary path component: not empty, without a separator, and
/// neither `.` nor `..`.
pub open spec fn is_plain_component_spec(s: Seq<char>) -> bool {
    &&& s.len() > 0
    &&& forall|i: int| 0 <= i < s.len() ==> s[i] != '/'
    &&& s != seq!['.']
    &&& s != seq!['.', '.']
}

/// The parts of an export destination are acceptable: the export name and
/// the removable medium are relative, and the owner hash, where it names the
/// home directory, is a single ordinary component.
pub open spec fn export_parts_valid_spec(
    user_id_hash: Seq<char>,
    export_name: Seq<char>,
    removable_media: Option<Seq<char>>,
) -> bool {
    &&& !is_absolute_spec(export_name)
    &&& match removable_media {
        Some(media) => !is_absolute_spec(media),
        None => is_plain_component_spec(user_id_hash),
    }
}

/// The directory under which every export to this destination must lie.
pub open spec fn export_root_spec(user_id_hash: Seq<char>, removable_media: Option<Seq<char>>) -> Seq<
    char,
> {
    match removable_media {
        Some(_) => REMOVABLE_MEDIA_ROOT@ + seq!['/'],
        None => CRYPTOHOME_USER@ + seq!['/'] + user_id_hash + seq!['/'] + DOWNLOADS_DIR@ + seq!['/'],
    }
}

/// `path` lies under the directory `root` (which ends with a separator) and
/// has no parent-directory component, so it cannot leave `root` once resolved.
pub open spec fn confined_to_spec(path: Seq<char>, root: Seq<char>) -> bool {
    &&& root.len() <= path.len()
    &&& path.subrange(0, root.len() as int) == root
    &&& !has_parent_component_spec(path)
}

/// With acceptable parts, the export destination starts with its root.
pub proof fn lemma_export_path_under_root(
    user_id_hash: Seq<char>,
    export_name: Seq<char>,
    removable_media: Option<Seq<char>>,
)
    requires
        export_parts_valid_spec(user_id_hash, export_name, removable_media),
    ensures
        ({
            let path = export_path_spec(user_id_hash, export_name, removable_media);
            let root = export_root_spec(user_id_hash, removable_media);
            root.len() <= path.len() && path.subrange(0, root.len() as int) == root
        }),
{
    reveal_strlit("/media/removable");
    reveal_strlit("/home/user");
    reveal_strlit("Downloads");
    reveal_strlit(".qcow2");
    let file_name = export_name + QCOW_IMAGE_EXTENSION@;
    assert(file_name.len() > 0 && file_name[0] != '/') by {
        if export_name.len() > 0 {
            assert(file_name[0] == export_name[0]);
        } else {
            assert(file_name[0] == QCOW_IMAGE_EXTENSION@[0]);
        }
    }
    let path = export_path_spec(user_id_hash, export_name, removable_media);
    let root = export_root_spec(user_id_hash, removable_media);
    match removable_media {
        Some(media) => {
            let dir = join_spec(REMOVABLE_MEDIA_ROOT@, media);
            assert(dir == REMOVABLE_MEDIA_ROOT@ + seq!['/'] + media);
            assert(dir.subrange(0, root.len() as int) =~= root);
            let tail = if dir.len() == 0 || dir.last() == '/' {
                file_name
            } else {
                seq!['/'] + file_name
            };
            assert(path =~= dir + tail);
            assert(path.subrange(0, root.len() as int) =~= dir.subrange(0, root.len() as int));
        },
        None => {
            let home = join_spec(CRYPTOHOME_USER@, user_id_hash);
            assert(home == CRYPTOHOME_USER@ + seq!['/'] + user_id_hash);
            assert(home.last() == user_id_hash.last());
            assert(user_id_hash[user_id_hash.len() - 1] != '/');
            let dir = join_spec(home, DOWNLOADS_DIR@);
            assert(dir == home + seq!['/'] + DOWNLOADS_DIR@);
            assert(dir.last() == 's');
            assert(path == dir + seq!['/'] + file_name);
            assert(path =~= root + file_name);
            assert(path.subrange(0, root.len() as int) =~= root);
        },
    }
}

/// Tells whether `s` starts at the filesystem root.
pub fn is_absolute(s: &str) -> (r: bool)
    ensures
        r == is_absolute_spec(s@),
{
    s.unicode_len() > 0 && s.get_char(0) == '/'
}

/// Tells whether `s` is one ordinary path component.
pub fn is_plain_component(s: &str) -> (r: bool)
    ensures
        r == is_plain_component_spec(s@),
{
    let len = s.unicode_len();
    if len == 0 {
        return false;
    }
    let mut i: usize = 0;
    while i < len
        invariant
            len == s@.len(),
            i <= len,
            forall|j: int| 0 <= j < i ==> s@[j] != '/',
        decreases len - i,
    {
        if s.get_char(i) == '/' {
            return false;
        }
        i = i + 1;
    }
    if len == 1 && s.get_char(0) == '.' {
        assert(s@ =~= seq!['.']);
        return false;
    }
    if len == 2 && s.get_char(0) == '.' && s.get_char(1) == '.' {
        assert(s@ =~= seq!['.', '.']);
        return false;
    }
    assert(s@ != seq!['.']) by {
        if len == 1 {
            assert(seq!['.'][0] == '.');
        }
    }
    assert(s@ != seq!['.', '.']) by {
        if len == 2 {
            assert(seq!['.', '.'][0] == '.' && seq!['.', '.'][1] == '.');
        }
    }
    true
}

/// Tells whether the parts of an export destination are acceptable.
pub fn export_parts_valid(user_id_hash: &str, export_name: &str, removable_media: Option<&str>) -> (r:
    bool)
    ensures
        r == export_parts_valid_spec(
            user_id_hash@,
            export_name@,
            match removable_media {
                Some(m) => Some(m@),
                None => None,
            },
        ),
{
    if is_absolute(export_name) {
        return false;
    }
    match removable_media {
        Some(media) => !is_absolute(media),
        None => is_plain_component(user_id_hash),
    }
}

/// Joins `part` onto `base` as a path.
pub fn join_path(base: &str, part: &str) -> (r: String)
    ensures
        r@ == join_spec(base@, part@),
{
    let part_len = part.unicode_len();
    if part_len > 0 && part.get_char(0) == '/' {
        return String::from_str(part);
    }
    let base_len = base.unicode_len();
    let mut joined = String::from_str(base);
    if base_len > 0 && base.get_char(base_len - 1) != '/' {
        joined.append("/");
        proof {
            reveal_strlit("/");
            assert(base@ + "/"@ == base@ + seq!['/']);
        }
    }
    joined.append(part);
    joined
}

/// Builds the destination path of a disk export.
pub fn export_path(user_id_hash: &str, export_name: &str, removable_media: Option<&str>) -> (r:
    String)
    ensures
        r@ == export_path_spec(
            user_id_hash@,
            export_name@,
            match removable_media {
                Some(m) => Some(m@),
                None => None,
            },
        ),
{
    let mut file_name = String::from_str(export_name);
    file_name.append(QCOW_IMAGE_EXTENSION);
    match removable_media {
        Some(media) => {
            let dir = join_path(REMOVABLE_MEDIA_ROOT, media);
            join_path(dir.as_str(), file_name.as_str())
        },
        None => {
            let home = join_path(CRYPTOHOME_USER, user_id_hash);
            let dir = join_path(home.as_str(), DOWNLOADS_DIR);
            join_path(dir.as_str(), file_name.as_str())
        },
    }
}

/// Tells whether some component of `path` is `..`.
pub fn has_parent_component(path: &str) -> (r: bool)
    ensures
        r == has_parent_component_spec(path@),
{
    let len = path.unicode_len();
    let mut i: usize = 0;
    while i < len
        invariant
            len == path@.len(),
            i <= len,
            forall|j: int| 0 <= j < i ==> !parent_segment_at(path@, j),
        decreases len - i,
    {
        if i + 1 < len && path.get_char(i) == '.' && path.get_char(i + 1) == '.' {
            let starts = i == 0 || path.get_char(i - 1) == '/';
            let ends = i + 2 == len || path.get_char(i + 2) == '/';
            if starts && ends {
                assert(parent_segment_at(path@, i as int));
                return true;
            }
        }
        i = i + 1;
    }
    assert forall|j: int| !parent_segment_at(path@, j) by {
        if 0 <= j < len {
        }
    }
    false
}

} // verus!
