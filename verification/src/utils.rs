//! Image ids and the paths below the state root.

use vstd::prelude::*;
pub use crate::command::{run_command, run_command_from_string};
use crate::action::{push_action, Action};
use crate::container::Container;
use crate::error::Failure;
use crate::image::Image;
use crate::text::{
    after, before, contains_char, ends_with, index_of, lemma_before_and_after,
    lemma_contains_concat, lemma_index_of, lemma_index_of_concat, remove_char, starts_with,
    take_after, take_before, without_char,
};

verus! {

/// An image id with the tag `latest` where it names none, and the
/// repository `library` where it names none.
pub open spec fn fixed_image_id(id: Seq<char>) -> Seq<char> {
    let tagged = if id.contains(':') {
        id
    } else {
        id + ":latest"@
    };
    if tagged.contains('/') {
        tagged
    } else {
        "library/"@ + tagged
    }
}

/// The name of an image id: what stands in front of its first colon, below
/// the repository `library` where it names none.
pub open spec fn image_name(id: Seq<char>) -> Seq<char> {
    let name = before(id, ':');
    if name.contains('/') {
        name
    } else {
        "library/"@ + name
    }
}

/// The reference of an image id: what stands between its first colon and
/// the next, or `latest` where it holds no colon.
pub open spec fn image_reference(id: Seq<char>) -> Seq<char> {
    if id.contains(':') {
        before(after(id, ':'), ':')
    } else {
        "latest"@
    }
}

/// An id that holds at most one colon, and no slash behind it.
pub open spec fn plain_image_id(id: Seq<char>) -> bool {
    !after(id, ':').contains(':') && !after(id, ':').contains('/')
}

/// An id whose slashes stand in front of its first colon.
pub open spec fn slashes_lead(id: Seq<char>) -> bool {
    forall|i: int| 0 <= i < id.len() && id[i] == '/' ==> i < index_of(id, ':')
}

/// The directory of an image in the store.
pub open spec fn image_path(image_id: Seq<char>) -> Seq<char> {
    "/var/lib/minato/images/"@ + image_id
}

/// The directory of a container in the store.
pub open spec fn container_path(container_id: Seq<char>) -> Seq<char> {
    "/var/lib/minato/containers/"@ + container_id
}

/// The path of a socket below the state root.
pub open spec fn socket_path(socket_name: Seq<char>) -> Seq<char> {
    "/var/lib/minato/"@ + socket_name
}

/// The pid file of a container.
pub open spec fn pid_path(container_id: Seq<char>) -> Seq<char> {
    container_path(container_id) + "/pid"@
}

/// `name` below the directory `base`; `name` itself where it starts at the root.
pub open spec fn path_below(base: Seq<char>, name: Seq<char>) -> Seq<char> {
    if "/"@.is_prefix_of(name) {
        name
    } else if base.len() == 0 || "/"@.is_suffix_of(base) {
        base + name
    } else {
        base + "/"@ + name
    }
}

/// Add the tag and the repository that an image id leaves out.
pub fn fix_image_id(image_id: &str) -> (r: Result<String, Failure>)
    ensures
        r matches Ok(id) && id@ == fixed_image_id(image_id@),
{
    let mut id = String::from_str(image_id);
    if !contains_char(id.as_str(), ':') {
        id.append(":latest");
    }
    if !contains_char(id.as_str(), '/') {
        let mut full = String::from_str("library/");
        full.append(id.as_str());
        id = full;
    }
    Ok(id)
}

/// Part an image id into its name and its reference.
pub fn split_image_id(image_id: String) -> (r: Result<(String, String), Failure>)
    ensures
        r matches Ok(parts) && parts.0@ == image_name(image_id@) && parts.1@ == image_reference(
            image_id@,
        ),
{
    let id = image_id.as_str();
    let mut name = take_before(id, ':');
    let reference = if contains_char(id, ':') {
        let rest = take_after(id, ':');
        take_before(rest.as_str(), ':')
    } else {
        String::from_str("latest")
    };
    if !contains_char(name.as_str(), '/') {
        let mut full = String::from_str("library/");
        full.append(name.as_str());
        name = full;
    }
    Ok((name, reference))
}

/// The directory of the image `image_id` in the store.
pub fn get_image_path_with_str(image_id: &str) -> (r: Result<String, Failure>)
    ensures
        r matches Ok(path) && path@ == image_path(image_id@),
{
    let mut path = String::from_str("/var/lib/minato/images/");
    path.append(image_id);
    Ok(path)
}

/// The directory of `image` in the store.
pub fn get_image_path(image: &Image) -> (r: Result<String, Failure>)
    ensures
        r matches Ok(path) && path@ == image_path(image.id@),
{
    get_image_path_with_str(image.id.as_str())
}

/// The directory of `container` in the store.
pub fn get_container_path(container: &Container) -> (r: Result<String, Failure>)
    ensures
        r matches Ok(path) && path@ == container_path(container.id@),
{
    get_container_path_with_str(container.id.as_str())
}

/// The process id that the pid file of `container` names; `pid_file` is the
/// content of that file, or nothing where it is absent.
pub fn get_container_pid(container: &Container, pid_file: Option<&str>) -> (r: Result<
    Option<String>,
    Failure,
>)
    ensures
        r matches Ok(pid) && match pid_file {
            Some(content) => pid matches Some(p) && p@ == without_char(content@, '\n'),
            None => pid is None,
        },
{
    get_container_pid_with_str(pid_file)
}

/// The directory of the container `container_id` in the store.
pub fn get_container_path_with_str(container_id: &str) -> (r: Result<String, Failure>)
    ensures
        r matches Ok(path) && path@ == container_path(container_id@),
{
    let mut path = String::from_str("/var/lib/minato/containers/");
    path.append(container_id);
    Ok(path)
}

/// The pid file of the container `container_id`.
pub fn get_container_pid_path(container_id: &str) -> (r: String)
    ensures
        r@ == pid_path(container_id@),
{
    let mut path = String::from_str("/var/lib/minato/containers/");
    path.append(container_id);
    path.append("/pid");
    path
}

/// The process id that a container's pid file names: the content of the
/// file without its line ends, or nothing where the file is absent.
pub fn get_container_pid_with_str(pid_file: Option<&str>) -> (r: Result<Option<String>, Failure>)
    ensures
        r matches Ok(pid) && match pid_file {
            Some(content) => pid matches Some(p) && p@ == without_char(content@, '\n'),
            None => pid is None,
        },
{
    match pid_file {
        Some(content) => Ok(Some(remove_char(content, '\n'))),
        None => Ok(None),
    }
}

/// The path of the socket `socket_name`.
pub fn get_socket_path(socket_name: &str) -> (r: Result<String, Failure>)
    ensures
        r matches Ok(path) && path@ == socket_path(socket_name@),
{
    let mut path = String::from_str("/var/lib/minato/");
    path.append(socket_name);
    Ok(path)
}

/// `name` below the directory `base`.
pub fn join_path(base: &str, name: &str) -> (r: String)
    ensures
        r@ == path_below(base@, name@),
{
    if starts_with(name, "/") {
        String::from_str(name)
    } else if base.unicode_len() == 0 || ends_with(base, "/") {
        let mut path = String::from_str(base);
        path.append(name);
        path
    } else {
        let mut path = String::from_str(base);
        path.append("/");
        path.append(name);
        path
    }
}

/// The operations that leave `dir_name` below `rootfs` as a fresh directory
/// with the permission bits `perms`: what was there is removed first.
pub fn prepare_directory(rootfs: &str, dir_name: &str, perms: u32) -> (r: Vec<Action>)
    ensures
        r.deep_view() == seq![
            crate::action::ActionView::RemoveDirAll { path: path_below(rootfs@, dir_name@) },
            crate::action::ActionView::MakeDir { path: path_below(rootfs@, dir_name@), mode: perms },
        ],
{
    let mut plan: Vec<Action> = Vec::new();
    push_action(&mut plan, Action::RemoveDirAll { path: join_path(rootfs, dir_name) });
    push_action(&mut plan, Action::MakeDir { path: join_path(rootfs, dir_name), mode: perms });
    assert(plan.deep_view() =~= seq![
        crate::action::ActionView::RemoveDirAll { path: path_below(rootfs@, dir_name@) },
        crate::action::ActionView::MakeDir { path: path_below(rootfs@, dir_name@), mode: perms },
    ]);
    plan
}

/// The operation that prints the capabilities of the process.
pub fn print_caps() -> (r: Action)
    ensures
        r.deep_view() == (crate::action::ActionView::Run {
            program: "/usr/sbin/capsh"@,
            args: seq!["--print"@],
        }),
{
    let mut args: Vec<String> = Vec::new();
    crate::action::push_text(&mut args, String::from_str("--print"));
    assert(args.deep_view() =~= seq!["--print"@]);
    Action::Run { program: String::from_str("/usr/sbin/capsh"), args }
}

/// An image id with at most one colon, and no slash behind it, is completed
/// to the name, a colon and the reference that it is parted into.
pub proof fn lemma_fixed_id_is_name_and_reference(id: Seq<char>)
    requires
        plain_image_id(id),
    ensures
        fixed_image_id(id) == image_name(fixed_image_id(id)) + ":"@ + image_reference(
            fixed_image_id(id),
        ),
        slashes_lead(fixed_image_id(id)),
{
    reveal_strlit(":");
    reveal_strlit(":latest");
    reveal_strlit("latest");
    reveal_strlit("library/");
    let library = "library/"@;
    assert(!library.contains(':')) by {
        if library.contains(':') {
            let i = choose|i: int| 0 <= i < library.len() && library[i] == ':';
            assert(library[i] != ':');
        }
    }
    assert(library.contains('/')) by {
        assert(library[7] == '/');
    }
    assert(!"latest"@.contains(':')) by {
        if "latest"@.contains(':') {
            let i = choose|i: int| 0 <= i < "latest"@.len() && "latest"@[i] == ':';
            assert("latest"@[i] != ':');
        }
    }
    assert(!"latest"@.contains('/')) by {
        if "latest"@.contains('/') {
            let i = choose|i: int| 0 <= i < "latest"@.len() && "latest"@[i] == '/';
            assert("latest"@[i] != '/');
        }
    }
    assert(":latest"@ =~= seq![':'] + "latest"@);
    assert(":"@ =~= seq![':']);
    let tagged = if id.contains(':') {
        id
    } else {
        id + ":latest"@
    };
    // The tagged id is a head without colon, a colon, and a tail without
    // colon or slash.
    let head = if id.contains(':') {
        before(id, ':')
    } else {
        id
    };
    let tail = if id.contains(':') {
        after(id, ':')
    } else {
        "latest"@
    };
    if id.contains(':') {
        lemma_before_and_after(id, ':');
    } else {
        lemma_index_of(id, ':');
        assert(after(id, ':') =~= Seq::<char>::empty());
    }
    assert(tagged =~= head + seq![':'] + tail);
    assert(!head.contains(':'));
    assert(!tail.contains(':') && !tail.contains('/'));
    lemma_contains_concat(head, seq![':'] + tail, '/');
    lemma_contains_concat(seq![':'], tail, '/');
    assert(!seq![':'].contains('/')) by {
        if seq![':'].contains('/') {
            let i = choose|i: int| 0 <= i < seq![':'].len() && seq![':'][i] == '/';
            assert(seq![':'][i] == ':');
        }
    }
    assert(tagged =~= head + (seq![':'] + tail));
    assert(tagged.contains('/') == head.contains('/'));
    let front = if tagged.contains('/') {
        head
    } else {
        library + head
    };
    let fixed = fixed_image_id(id);
    assert(fixed =~= front + (seq![':'] + tail));
    lemma_contains_concat(library, head, ':');
    lemma_contains_concat(library, head, '/');
    assert(!front.contains(':'));
    assert(front.contains('/'));
    lemma_index_of_concat(front, seq![':'] + tail, ':');
    assert(index_of(seq![':'] + tail, ':') == 0);
    assert(index_of(fixed, ':') == front.len());
    assert(before(fixed, ':') =~= front);
    assert(after(fixed, ':') =~= tail);
    lemma_index_of(tail, ':');
    assert(before(tail, ':') =~= tail);
    lemma_index_of(fixed, ':');
    assert(fixed.contains(':'));
    assert(image_name(fixed) == front);
    assert(image_reference(fixed) == tail);
    assert(fixed =~= front + ":"@ + tail);
    assert forall|i: int| 0 <= i < fixed.len() && fixed[i] == '/' implies i < index_of(
        fixed,
        ':',
    ) by {
        if i >= front.len() {
            let j = i - front.len();
            assert(fixed[i] == (seq![':'] + tail)[j]);
            if j > 0 {
                assert(tail[j - 1] == '/');
                assert(tail.contains('/'));
            }
        }
    }
}

/// A completed image id holds a colon and a slash.
pub proof fn lemma_fixed_image_id_is_complete(id: Seq<char>)
    ensures
        fixed_image_id(id).contains(':'),
        fixed_image_id(id).contains('/'),
{
    reveal_strlit(":latest");
    reveal_strlit("library/");
    let tagged = if id.contains(':') {
        id
    } else {
        id + ":latest"@
    };
    lemma_contains_concat(id, ":latest"@, ':');
    assert(":latest"@[0] == ':');
    assert(tagged.contains(':'));
    lemma_contains_concat("library/"@, tagged, ':');
    lemma_contains_concat("library/"@, tagged, '/');
    assert("library/"@[7] == '/');
}

/// Completing an image id a second time changes nothing.
pub proof fn lemma_fix_image_id_idempotent(id: Seq<char>)
    ensures
        fixed_image_id(fixed_image_id(id)) == fixed_image_id(id),
{
    lemma_fixed_image_id_is_complete(id);
}

} // verus!
