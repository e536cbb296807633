//! Scene (snapshot) rules: model compatibility, the shared auto-saved
//! scene's conflict check, and the file names scenes and layouts are
//! stored under.
use vstd::prelude::*;

use crate::error::Error;
use crate::text::{decimal, push_decimal};

verus! {

/// Whether two strings are equal.
pub fn str_equal(a: &str, b: &str) -> (r: bool)
    ensures
        r == (a@ == b@),
{
    let x = String::from_str(a);
    let y = String::from_str(b);
    x == y
}

/// A scene captured on `scene_model` may be applied to `device_model`:
/// a blank model (legacy scene) is always accepted, otherwise the models
/// must match.
pub open spec fn models_compatible(scene_model: Seq<char>, device_model: Seq<char>) -> bool {
    scene_model.len() == 0 || scene_model == device_model
}

/// Returns an error if the scene was captured on a different model than
/// `device_model`.
pub fn check_compatible(scene_model: &str, device_model: &str) -> (r: Result<(), Error>)
    ensures
        models_compatible(scene_model@, device_model@) <==> r is Ok,
        !models_compatible(scene_model@, device_model@) ==> (r matches Err(
            Error::SceneModelMismatch { scene_model: s, device_model: d },
        ) && s@ == scene_model@ && d@ == device_model@),
{
    if !scene_model.is_empty() && !str_equal(scene_model, device_model) {
        return Err(
            Error::SceneModelMismatch {
                scene_model: String::from_str(scene_model),
                device_model: String::from_str(device_model),
            },
        );
    }
    Ok(())
}

/// Whether the other interface wrote the shared auto-scene since our last
/// write: there is a file, and it differs from what we last wrote (or we
/// have not written yet).
pub open spec fn written_by_other_spec(our_last: Option<Seq<char>>, on_disk: Option<Seq<char>>) -> bool {
    match on_disk {
        None => false,
        Some(d) => match our_last {
            Some(o) => o != d,
            None => true,
        },
    }
}

/// Decides whether the auto-scene file content `on_disk` (None when absent
/// or unreadable) was written by the other interface, given the JSON of
/// our own last write.
pub fn written_by_other(our_last_json: Option<&str>, on_disk: Option<&str>) -> (r: bool)
    ensures
        r == written_by_other_spec(
            match our_last_json {
                Some(o) => Some(o@),
                None => None,
            },
            match on_disk {
                Some(d) => Some(d@),
                None => None,
            },
        ),
{
    match on_disk {
        None => false,
        Some(d) => match our_last_json {
            Some(o) => !str_equal(o, d),
            None => true,
        },
    }
}

/// `file` joined under directory `dir` (a relative file name): a
/// separator is added unless `dir` is empty or already ends in one.
pub open spec fn joined_path(dir: Seq<char>, file: Seq<char>) -> Seq<char> {
    if dir.len() == 0 {
        file
    } else if dir.last() == '/' {
        dir + file
    } else {
        dir + seq!['/'] + file
    }
}

/// Joins a relative file name under a directory.
pub fn join_path(dir: &str, file: &str) -> (r: String)
    ensures
        r@ == joined_path(dir@, file@),
{
    proof {
        reveal_strlit("/");
    }
    let n = dir.unicode_len();
    if n == 0 {
        return String::from_str(file);
    }
    let mut s = String::from_str(dir);
    if dir.get_char(n - 1) != '/' {
        s.append("/");
    }
    s.append(file);
    s
}

/// Directory for saved scenes, `.local/share/tuxmix/scenes` under the
/// home directory `home`, or under the working directory `.` when no home
/// is known.
pub fn scenes_dir(home: Option<&str>) -> (r: String)
    ensures
        r@ == joined_path(
            match home {
                Some(h) => h@,
                None => "."@,
            },
            ".local/share/tuxmix/scenes"@,
        ),
{
    match home {
        Some(h) => join_path(h, ".local/share/tuxmix/scenes"),
        None => join_path(".", ".local/share/tuxmix/scenes"),
    }
}

/// Path of the shared auto-saved scene inside the scenes directory.
pub fn auto_scene_path(scenes_dir: &str) -> (r: String)
    ensures
        r@ == joined_path(scenes_dir@, "auto.json"@),
{
    join_path(scenes_dir, "auto.json")
}

/// File name of the scene called `name`: `"{name}.json"`.
pub fn scene_file_name(name: &str) -> (r: String)
    ensures
        r@ == name@ + ".json"@,
{
    let mut s = String::from_str(name);
    s.append(".json");
    s
}

/// The scene name of a file in the scenes directory: the name without
/// its `.json` extension, or None for any other file.
pub fn scene_name_of_file(file: &str) -> (r: Option<&str>)
    ensures
        ({
            let n = file@.len();
            let ext = ".json"@;
            if n >= 5 && file@.subrange(n - 5, n as int) == ext {
                r matches Some(s) && s@ == file@.subrange(0, n - 5)
            } else {
                r is None
            }
        }),
{
    proof {
        reveal_strlit(".json");
    }
    let n = file.unicode_len();
    if n < 5 {
        return None;
    }
    let ext = file.substring_char(n - 5, n);
    if str_equal(ext, ".json") {
        Some(file.substring_char(0, n - 5))
    } else {
        None
    }
}

/// File name of layout slot `slot`: `"Layout {slot}.json"`.
pub fn layout_file_name(slot: u8) -> (r: String)
    ensures
        r@ == "Layout "@ + decimal(slot as nat) + ".json"@,
{
    let mut s = String::from_str("Layout ");
    push_decimal(&mut s, slot as u64);
    s.append(".json");
    s
}

/// Scene name of snapshot slot `n`: `"Mix {n}"`.
pub fn snapshot_name(n: u8) -> (r: String)
    ensures
        r@ == "Mix "@ + decimal(n as nat),
{
    let mut s = String::from_str("Mix ");
    push_decimal(&mut s, n as u64);
    s
}

// ── Laws ─────────────────────────────────────────────────────────

/// A scene is always compatible with the model it was captured on, and a
/// legacy scene (blank model) with every model.
pub proof fn lemma_scene_compatible_with_own_model(m: Seq<char>, d: Seq<char>)
    ensures
        models_compatible(m, m),
        models_compatible(Seq::<char>::empty(), d),
{
}

/// The file name of a scene is recognised as that scene's file: saving
/// scene `name` and listing the directory gives `name` back.
pub proof fn lemma_scene_file_name_round_trip(name: Seq<char>)
    ensures
        ({
            let f = name + ".json"@;
            let n = f.len();
            n >= 5 && f.subrange(n - 5, n as int) == ".json"@ && f.subrange(0, n - 5) == name
        }),
{
    reveal_strlit(".json");
    let f = name + ".json"@;
    assert(f.subrange(f.len() - 5, f.len() as int) =~= ".json"@);
    assert(f.subrange(0, f.len() - 5) =~= name);
}

} // verus!
