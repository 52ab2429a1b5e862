//! Persistent viewer settings: the last theme, the last opened file, and the
//! list of recently opened files.  Reading and writing the settings file is
//! the host's business; this module owns the data and its update rules.

use vstd::prelude::*;

use crate::string_views;

verus! {

/// Upper bound on the length of the recently-opened-file list.
pub const MAX_RECENT_FILES: usize = 20;

/// The viewer's persistent settings.
#[derive(Clone, Debug)]
pub struct AppConfig {
    /// Name of the theme selected most recently, if any.
    pub last_theme: Option<String>,
    /// Path of the file opened most recently, if any.
    pub last_file: Option<String>,
    /// Paths of recently opened files, most recent first, without
    /// duplicates, at most [`MAX_RECENT_FILES`] long.
    pub recent_files: Vec<String>,
}

impl Default for AppConfig {
    /// The empty configuration: nothing remembered yet.
    fn default() -> (c: AppConfig)
        ensures
            c.last_theme is None,
            c.last_file is None,
            c.recent_files@.len() == 0,
    {
        AppConfig { last_theme: None, last_file: None, recent_files: Vec::new() }
    }
}

/// The entries of `list` other than `path`, in order.
pub open spec fn keep_others(list: Seq<Seq<char>>, path: Seq<char>) -> Seq<Seq<char>>
    decreases list.len(),
{
    if list.len() == 0 {
        Seq::empty()
    } else if list.last() == path {
        keep_others(list.drop_last(), path)
    } else {
        keep_others(list.drop_last(), path).push(list.last())
    }
}

/// The recent-file list after recording `path`: `path` moves to the front,
/// every earlier occurrence of it is dropped, and the list is cut back to
/// [`MAX_RECENT_FILES`] entries.
pub open spec fn recent_after(list: Seq<Seq<char>>, path: Seq<char>) -> Seq<Seq<char>> {
    let kept = seq![path] + keep_others(list, path);
    if kept.len() <= MAX_RECENT_FILES {
        kept
    } else {
        kept.take(MAX_RECENT_FILES as int)
    }
}

/// Record `path` as the most recently opened file, deduplicating and keeping
/// at most [`MAX_RECENT_FILES`] entries.
pub fn push_recent_file(recent: &mut Vec<String>, path: &str)
    ensures
        string_views(final(recent)@) == recent_after(string_views(old(recent)@), path@),
{
    let ghost old_views = string_views(old(recent)@);
    let probe: String = path.to_owned();
    let mut out: Vec<String> = Vec::new();
    out.push(path.to_owned());
    assert(string_views(out@) =~= seq![path@] + keep_others(old_views.take(0), path@)) by {
        assert(old_views.take(0) =~= Seq::<Seq<char>>::empty());
    }
    let mut i: usize = 0;
    while i < recent.len()
        invariant
            i <= recent.len(),
            recent@ == old(recent)@,
            old_views == string_views(recent@),
            probe@ == path@,
            string_views(out@) == seq![path@] + keep_others(old_views.take(i as int), path@),
        decreases recent.len() - i,
    {
        let ghost prior = string_views(out@);
        let is_dup = recent[i] == probe;
        assert(old_views[i as int] == recent@[i as int]@);
        if !is_dup {
            out.push(recent[i].clone());
            assert(string_views(out@) =~= prior.push(old_views[i as int]));
        }
        proof {
            let t = old_views.take(i + 1);
            assert(t.drop_last() =~= old_views.take(i as int));
            assert(t.last() == old_views[i as int]);
            assert(string_views(out@) =~= seq![path@] + keep_others(old_views.take(i + 1), path@));
        }
        i += 1;
    }
    proof {
        assert(old_views.take(old_views.len() as int) =~= old_views);
    }
    let ghost kept = seq![path@] + keep_others(old_views, path@);
    if out.len() > MAX_RECENT_FILES {
        out.truncate(MAX_RECENT_FILES);
        assert(string_views(out@) =~= kept.take(MAX_RECENT_FILES as int));
    }
    *recent = out;
    assert(string_views(recent@) =~= recent_after(old_views, path@));
}

/// Fold a save request into the configuration: a supplied theme name
/// replaces the remembered one, and a supplied file path becomes the last
/// opened file and the front of the recent-file list.  Absent parts leave
/// the configuration as it was.
pub fn apply_config_update(
    config: &mut AppConfig,
    last_theme: Option<String>,
    last_file: Option<String>,
)
    ensures
        final(config).last_theme == if last_theme is Some {
            last_theme
        } else {
            old(config).last_theme
        },
        match last_file {
            Option::Some(file) => final(config).last_file == Option::Some(file)
                && string_views(final(config).recent_files@) == recent_after(
                string_views(old(config).recent_files@),
                file@,
            ),
            Option::None => final(config).last_file == old(config).last_file
                && final(config).recent_files@ == old(config).recent_files@,
        },
{
    if let Some(theme) = last_theme {
        config.last_theme = Some(theme);
    }
    if let Some(file) = last_file {
        push_recent_file(&mut config.recent_files, file.as_str());
        config.last_file = Some(file);
    }
}

} // verus!
