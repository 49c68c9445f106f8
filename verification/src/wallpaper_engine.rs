//! Wallpapers: recognising image and video files, the list of favourites,
//! the wallpaper each workspace shows, and the catalogue offered to the user.
use vstd::prelude::*;

use crate::app_registry::lowercase;
use crate::config::{WallpaperConfig, WallpaperMode};
use crate::text::{chars_of, contains_chars, has_substring, join_path, lex_le, lex_less, lex_lt, lemma_lex_lt_irreflexive, lemma_lex_lt_transitive, owned, path_join, str_eq};
use crate::text::{known_or_empty, or_empty};

verus! {

/// `Path::file_stem` of a path, as text.
pub uninterp spec fn path_file_stem(path: Seq<char>) -> Option<Seq<char>>;

/// `Path::extension` of a path, as text.
pub uninterp spec fn path_extension(path: Seq<char>) -> Option<Seq<char>>;

/// `Path::file_stem`: the file name without its extension. The contract
/// names the result; how `std` splits a path into components and a file name
/// into stem and extension is not written out here.
#[verifier::external_body]
fn file_stem(path: &str) -> (r: Option<String>)
    ensures
        match r {
            Some(s) => path_file_stem(path@) == Some(s@),
            None => path_file_stem(path@) is None,
        },
{
    std::path::Path::new(path).file_stem().map(|s| s.to_string_lossy().into_owned())
}

/// `Path::extension`: the text after the last '.' of the file name. The
/// contract names the result, as for `file_stem`.
#[verifier::external_body]
fn extension(path: &str) -> (r: Option<String>)
    ensures
        match r {
            Some(s) => path_extension(path@) == Some(s@),
            None => path_extension(path@) is None,
        },
{
    std::path::Path::new(path).extension().map(|s| s.to_string_lossy().into_owned())
}

/// The extensions of video files.
pub open spec fn is_video_ext(e: Seq<char>) -> bool {
    e == "mp4"@ || e == "webm"@ || e == "mkv"@ || e == "mov"@ || e == "avi"@
}

/// The extensions of image files.
pub open spec fn is_image_ext(e: Seq<char>) -> bool {
    e == "png"@ || e == "jpg"@ || e == "jpeg"@ || e == "webp"@ || e == "avif"@ || e == "gif"@
}

/// Whether the path has a video extension.
pub open spec fn is_video_path(p: Seq<char>) -> bool {
    path_extension(p) matches Some(e) && is_video_ext(e)
}

/// Whether the path has an image extension.
pub open spec fn is_image_path(p: Seq<char>) -> bool {
    path_extension(p) matches Some(e) && is_image_ext(e)
}

fn video_ext(e: &str) -> (r: bool)
    ensures
        r == is_video_ext(e@),
{
    str_eq(e, "mp4") || str_eq(e, "webm") || str_eq(e, "mkv") || str_eq(e, "mov") || str_eq(e, "avi")
}

fn image_ext(e: &str) -> (r: bool)
    ensures
        r == is_image_ext(e@),
{
    str_eq(e, "png") || str_eq(e, "jpg") || str_eq(e, "jpeg") || str_eq(e, "webp") || str_eq(e, "avif")
        || str_eq(e, "gif")
}

/// A wallpaper file.
#[derive(Debug, Clone)]
pub struct WallpaperEntry {
    pub path: String,
    pub is_video: bool,
    pub name: String,
}

/// The name shown for a wallpaper file: its file stem, or `Unknown`.
pub open spec fn wallpaper_name(p: Seq<char>) -> Seq<char> {
    match path_file_stem(p) {
        Some(s) => s,
        None => "Unknown"@,
    }
}

impl WallpaperEntry {
    /// The wallpaper at `path`, if the file exists and is an image or a video.
    pub fn from_path(path: String, exists: bool) -> (r: Option<WallpaperEntry>)
        ensures
            r is Some <==> exists && (is_video_path(path@) || is_image_path(path@)),
            r matches Some(w) ==> w.path == path && w.is_video == is_video_path(path@) && w.name@
                == wallpaper_name(path@),
    {
        if !exists {
            return None;
        }
        let name = match file_stem(path.as_str()) {
            Some(s) => s,
            None => owned("Unknown"),
        };
        let (is_video, is_image) = match extension(path.as_str()) {
            Some(e) => (video_ext(e.as_str()), image_ext(e.as_str())),
            None => (false, false),
        };
        if is_video || is_image {
            Some(WallpaperEntry { path, is_video, name })
        } else {
            None
        }
    }

    /// An identical copy.
    pub fn duplicate(&self) -> (r: Self)
        ensures
            r == *self,
    {
        WallpaperEntry { path: self.path.clone(), is_video: self.is_video, name: self.name.clone() }
    }
}

/// Some favourite reads `path`.
pub open spec fn is_fav(favorites: Seq<String>, path: Seq<char>) -> bool {
    exists|i: int| 0 <= i < favorites.len() && (#[trigger] favorites[i])@ == path
}

/// The favourites other than `path`, in order.
pub open spec fn without(favorites: Seq<String>, path: Seq<char>) -> Seq<String> {
    favorites.filter(other_than(path))
}

/// The test that keeps a favourite other than `path`.
pub open spec fn other_than(path: Seq<char>) -> spec_fn(String) -> bool {
    |f: String| f@ != path
}

/// Dropping a path that is not a favourite keeps every favourite.
proof fn lemma_without_absent(favorites: Seq<String>, path: Seq<char>)
    requires
        !is_fav(favorites, path),
    ensures
        without(favorites, path) == favorites,
    decreases favorites.len(),
{
    if favorites.len() > 0 {
        let init = favorites.drop_last();
        assert(!is_fav(init, path)) by {
            if is_fav(init, path) {
                let i = choose|i: int| 0 <= i < init.len() && (#[trigger] init[i])@ == path;
                assert(favorites[i] == init[i]);
            }
        }
        lemma_without_absent(init, path);
        assert(favorites =~= init.push(favorites.last()));
        init.lemma_filter_push(favorites.last(), other_than(path));
        assert(favorites[favorites.len() - 1]@ != path);
    }
}

/// Adding a path that is not yet a favourite and then removing it gives
/// back the favourites as they were.
pub proof fn law_add_then_remove_favorite(before: Seq<String>, added: Seq<String>, path: Seq<char>)
    requires
        !is_fav(before, path),
        added.len() == before.len() + 1,
        added.take(before.len() as int) == before,
        added.last()@ == path,
    ensures
        without(added, path) == before,
{
    lemma_without_absent(before, path);
    assert(added =~= before.push(added.last()));
    before.lemma_filter_push(added.last(), other_than(path));
}

/// Whether a wallpaper survives the catalogue's filters.
pub open spec fn wallpaper_selected(
    w: WallpaperEntry,
    favorites: Seq<String>,
    search: Option<Seq<char>>,
    favorites_only: bool,
) -> bool {
    &&& !favorites_only || is_fav(favorites, w.path@)
    &&& search matches Some(q) ==> has_substring(lowercase(w.name@), lowercase(q))
}

/// The wallpapers are ordered by name.
pub open spec fn sorted_by_name(s: Seq<WallpaperEntry>) -> bool {
    forall|i: int, j: int| 0 <= i < j < s.len() ==> lex_le((#[trigger] s[i]).name@, (#[trigger] s[j]).name@)
}

/// `s` without the wallpapers whose path is that of the one kept just
/// before them (`Vec::dedup_by` on the path).
pub open spec fn dedup_by_path(s: Seq<WallpaperEntry>) -> Seq<WallpaperEntry>
    decreases s.len(),
{
    if s.len() == 0 {
        s
    } else {
        let d = dedup_by_path(s.drop_last());
        if d.len() > 0 && d.last().path@ == s.last().path@ {
            d
        } else {
            d.push(s.last())
        }
    }
}

/// The wallpaper engine.
pub struct WallpaperEngine;

fn wallpaper_name_less(a: &WallpaperEntry, b: &WallpaperEntry) -> (r: bool)
    ensures
        r == lex_lt(a.name@, b.name@),
{
    lex_less(&chars_of(a.name.as_str()), &chars_of(b.name.as_str()))
}

impl WallpaperEngine {
    /// The directories searched for wallpapers, for the home, data and
    /// configuration directories given (an unknown one counting as the empty
    /// path): the system's, then the user's pictures, data and configuration
    /// directories.
    pub fn wallpaper_dirs_in(home: Option<String>, data: Option<String>, config: Option<String>) -> (r: Vec<String>)
        ensures
            r@.len() == 7,
            r@[0]@ == "/usr/share/backgrounds"@,
            r@[1]@ == "/usr/share/wallpapers"@,
            r@[2]@ == path_join(known_or_empty(home), "Pictures/Wallpapers"@),
            r@[3]@ == path_join(known_or_empty(home), "Pictures/Backgrounds"@),
            r@[4]@ == path_join(known_or_empty(data), "wallpapers"@),
            r@[5]@ == path_join(known_or_empty(config), "xarph/wallpapers"@),
            r@[6]@ == path_join(known_or_empty(home), ".local/share/backgrounds"@),
    {
        let home = or_empty(home);
        let data = or_empty(data);
        let config = or_empty(config);
        let mut v: Vec<String> = Vec::new();
        v.push(owned("/usr/share/backgrounds"));
        v.push(owned("/usr/share/wallpapers"));
        v.push(join_path(home.as_str(), "Pictures/Wallpapers"));
        v.push(join_path(home.as_str(), "Pictures/Backgrounds"));
        v.push(join_path(data.as_str(), "wallpapers"));
        v.push(join_path(config.as_str(), "xarph/wallpapers"));
        v.push(join_path(home.as_str(), ".local/share/backgrounds"));
        v
    }

    /// The directories searched for wallpapers, under the user's home, data
    /// and configuration directories as the environment gives them.
    pub fn get_wallpaper_dirs() -> (r: Vec<String>)
        ensures
            r@.len() == 7,
            r@[0]@ == "/usr/share/backgrounds"@,
            r@[1]@ == "/usr/share/wallpapers"@,
            exists|home: Seq<char>|
                r@[2]@ == path_join(home, "Pictures/Wallpapers"@) && r@[3]@ == path_join(
                    home,
                    "Pictures/Backgrounds"@,
                ) && r@[6]@ == path_join(home, ".local/share/backgrounds"@),
            exists|data: Seq<char>| r@[4]@ == path_join(data, "wallpapers"@),
            exists|config: Seq<char>| r@[5]@ == path_join(config, "xarph/wallpapers"@),
    {
        let home = crate::locations::home_dir();
        let data = crate::locations::data_dir();
        let config = crate::locations::config_dir();
        let r = Self::wallpaper_dirs_in(home, data, config);
        proof {
            assert(r@[2]@ == path_join(known_or_empty(home), "Pictures/Wallpapers"@));
            assert(r@[4]@ == path_join(known_or_empty(data), "wallpapers"@));
            assert(r@[5]@ == path_join(known_or_empty(config), "xarph/wallpapers"@));
        }
        r
    }

    /// The catalogue of wallpapers from the files found: those that pass the
    /// filters (favourites only if asked; the name contains the search text,
    /// in lower case), ordered by name, a wallpaper dropped when it has the
    /// path of the one kept just before it.
    pub fn collect_wallpapers(
        found: Vec<WallpaperEntry>,
        favorites: &Vec<String>,
        search: Option<&str>,
        favorites_only: bool,
    ) -> (r: Vec<WallpaperEntry>)
        ensures
            exists|sorted: Seq<WallpaperEntry>|
                #![trigger dedup_by_path(sorted)]
                {
                    &&& sorted_by_name(sorted)
                    &&& sorted.to_multiset() == found@.filter(
                        |w: WallpaperEntry|
                            wallpaper_selected(
                                w,
                                favorites@,
                                match search {
                                    Some(q) => Some(q@),
                                    None => None,
                                },
                                favorites_only,
                            ),
                    ).to_multiset()
                    &&& r@ == dedup_by_path(sorted)
                },
    {
        broadcast use vstd::seq_lib::group_to_multiset_ensures;
        let ghost sv = match search {
            Some(q) => Some(q@),
            None => None,
        };
        let ghost pred = |w: WallpaperEntry| wallpaper_selected(w, favorites@, sv, favorites_only);
        let query: Option<Vec<char>> = match search {
            Some(q) => Some(chars_of(crate::app_registry::to_lowercase(q).as_str())),
            None => None,
        };
        // filter, in order
        let mut kept: Vec<WallpaperEntry> = Vec::new();
        let n = found.len();
        let ghost orig = found@;
        let mut src = found;
        let mut i: usize = 0;
        proof {
            assert(src@ =~= orig.skip(0));
        }
        while i < n
            invariant
                n == orig.len(),
                i <= n,
                src@ == orig.skip(i as int),
                pred == (|w: WallpaperEntry| wallpaper_selected(w, favorites@, sv, favorites_only)),
                sv == (match search {
                    Some(q) => Some(q@),
                    None => None::<Seq<char>>,
                }),
                match search {
                    Some(q) => query matches Some(v) && v@ == lowercase(q@),
                    None => query is None,
                },
                kept@ == orig.take(i as int).filter(pred),
            decreases n - i,
        {
            proof {
                assert(src@.len() == n - i);
            }
            let w = src.remove(0);
            proof {
                assert(w == orig[i as int]);
                assert(src@ =~= orig.skip(i + 1));
                reveal(Seq::filter);
                assert(orig.take(i + 1).drop_last() =~= orig.take(i as int));
                assert(orig.take(i + 1).last() == w);
            }
            let fav_ok = !favorites_only || Self::is_favorite(favorites, w.path.as_str());
            let search_ok = match &query {
                Some(q) => contains_chars(
                    &chars_of(crate::app_registry::to_lowercase(w.name.as_str()).as_str()),
                    q,
                ),
                None => true,
            };
            if fav_ok && search_ok {
                kept.push(w);
            }
            i = i + 1;
        }
        proof {
            assert(orig.take(n as int) =~= orig);
        }
        let ghost kept_v = kept@;
        let sorted = Self::sort_wallpapers(kept);
        let r = Self::dedup_paths(sorted);
        proof {
            let q2 = |w: WallpaperEntry|
                wallpaper_selected(
                    w,
                    favorites@,
                    match search {
                        Some(q) => Some(q@),
                        None => None,
                    },
                    favorites_only,
                );
            assert(pred =~= q2);
            assert(kept_v == orig.filter(q2));
            assert(sorted@.to_multiset() == orig.filter(q2).to_multiset());
            assert(r@ == dedup_by_path(sorted@));
        }
        r
    }

    fn sort_wallpapers(v: Vec<WallpaperEntry>) -> (r: Vec<WallpaperEntry>)
        ensures
            sorted_by_name(r@),
            r@.to_multiset() == v@.to_multiset(),
    {
        broadcast use vstd::seq_lib::group_to_multiset_ensures;
        let mut r: Vec<WallpaperEntry> = Vec::new();
        let mut src = v;
        let ghost orig = src@;
        let n = src.len();
        let mut k: usize = 0;
        proof {
            assert(src@ =~= orig.skip(0));
        }
        while k < n
            invariant
                k <= n,
                n == orig.len(),
                src@ == orig.skip(k as int),
                sorted_by_name(r@),
                r@.to_multiset() == orig.take(k as int).to_multiset(),
            decreases n - k,
        {
            proof {
                assert(src@.len() == n - k);
            }
            let x = src.remove(0);
            proof {
                assert(x == orig[k as int]);
                assert(src@ =~= orig.skip(k + 1));
            }
            let mut p: usize = 0;
            while p < r.len() && !wallpaper_name_less(&x, &r[p])
                invariant
                    p <= r.len(),
                    forall|i: int| 0 <= i < p ==> lex_le(#[trigger] r@[i].name@, x.name@),
                decreases r.len() - p,
            {
                p = p + 1;
            }
            let ghost old_r = r@;
            proof {
                if p < r.len() {
                    assert(lex_lt(x.name@, r@[p as int].name@));
                }
            }
            r.insert(p, x);
            proof {
                vstd::seq_lib::to_multiset_insert(old_r, p as int, orig[k as int]);
                vstd::seq_lib::to_multiset_build(orig.take(k as int), orig[k as int]);
                assert(orig.take(k + 1) =~= orig.take(k as int).push(orig[k as int]));
                assert forall|i: int, j: int|
                    0 <= i < j < r@.len() implies lex_le(
                    (#[trigger] r@[i]).name@,
                    (#[trigger] r@[j]).name@,
                ) by {
                    if j < p {
                        assert(r@[i] == old_r[i] && r@[j] == old_r[j]);
                    } else if j == p {
                        assert(r@[i] == old_r[i]);
                    } else if i == p {
                        assert(r@[j] == old_r[j - 1]);
                        if lex_lt(old_r[j - 1].name@, x.name@) {
                            lemma_lex_lt_transitive(old_r[j - 1].name@, x.name@, old_r[p as int].name@);
                            if p < j - 1 {
                                assert(lex_le(old_r[p as int].name@, old_r[j - 1].name@));
                            } else {
                                lemma_lex_lt_irreflexive(old_r[p as int].name@);
                            }
                        }
                    } else if i < p {
                        assert(r@[i] == old_r[i] && r@[j] == old_r[j - 1]);
                    } else {
                        assert(r@[i] == old_r[i - 1] && r@[j] == old_r[j - 1]);
                    }
                }
            }
            k = k + 1;
        }
        proof {
            assert(orig.take(n as int) =~= orig);
        }
        r
    }

    fn dedup_paths(v: Vec<WallpaperEntry>) -> (r: Vec<WallpaperEntry>)
        ensures
            r@ == dedup_by_path(v@),
    {
        let mut r: Vec<WallpaperEntry> = Vec::new();
        let mut src = v;
        let ghost orig = src@;
        let n = src.len();
        let mut i: usize = 0;
        proof {
            assert(src@ =~= orig.skip(0));
        }
        while i < n
            invariant
                i <= n,
                n == orig.len(),
                src@ == orig.skip(i as int),
                r@ == dedup_by_path(orig.take(i as int)),
            decreases n - i,
        {
            proof {
                assert(src@.len() == n - i);
            }
            let w = src.remove(0);
            proof {
                assert(w == orig[i as int]);
                assert(src@ =~= orig.skip(i + 1));
                assert(orig.take(i + 1).drop_last() =~= orig.take(i as int));
                assert(orig.take(i + 1).last() == w);
            }
            let dup = r.len() > 0 && r[r.len() - 1].path == w.path;
            if !dup {
                r.push(w);
            }
            i = i + 1;
        }
        proof {
            assert(orig.take(n as int) =~= orig);
        }
        r
    }

    /// Adds `path` to the favourites unless it is there already; says whether
    /// the list changed (and so must be saved).
    pub fn add_favorite(favorites: &mut Vec<String>, path: &str) -> (changed: bool)
        ensures
            changed == !is_fav(old(favorites)@, path@),
            changed ==> final(favorites)@.len() == old(favorites)@.len() + 1
                && final(favorites)@.take(old(favorites)@.len() as int) == old(favorites)@
                && final(favorites)@.last()@ == path@,
            !changed ==> final(favorites)@ == old(favorites)@,
    {
        if Self::is_favorite(favorites, path) {
            false
        } else {
            favorites.push(owned(path));
            proof {
                assert(favorites@.take(old(favorites)@.len() as int) =~= old(favorites)@);
            }
            true
        }
    }

    /// Removes every occurrence of `path` from the favourites.
    pub fn remove_favorite(favorites: &mut Vec<String>, path: &str)
        ensures
            final(favorites)@ == without(old(favorites)@, path@),
    {
        let ghost pred = other_than(path@);
        let mut kept: Vec<String> = Vec::new();
        let mut i: usize = 0;
        while i < favorites.len()
            invariant
                i <= favorites@.len(),
                favorites@ == old(favorites)@,
                pred == other_than(path@),
                kept@ == favorites@.take(i as int).filter(pred),
            decreases favorites.len() - i,
        {
            proof {
                reveal(Seq::filter);
                assert(favorites@.take(i + 1).drop_last() =~= favorites@.take(i as int));
                assert(favorites@.take(i + 1).last() == favorites@[i as int]);
            }
            if !str_eq(favorites[i].as_str(), path) {
                kept.push(favorites[i].clone());
            }
            i = i + 1;
        }
        proof {
            assert(favorites@.take(favorites@.len() as int) =~= favorites@);
        }
        *favorites = kept;
    }

    /// Whether `path` is a favourite.
    pub fn is_favorite(favorites: &Vec<String>, path: &str) -> (r: bool)
        ensures
            r == is_fav(favorites@, path@),
    {
        let mut i: usize = 0;
        while i < favorites.len()
            invariant
                i <= favorites@.len(),
                forall|j: int| 0 <= j < i ==> (#[trigger] favorites@[j])@ != path@,
            decreases favorites.len() - i,
        {
            if str_eq(favorites[i].as_str(), path) {
                return true;
            }
            i = i + 1;
        }
        false
    }

    /// Where the favourites are kept for the configuration directory
    /// `config`: `<config>/xarph/desktop/wallpaper_favorites.json`, `~/.config`
    /// standing in for a missing directory.
    pub fn favorites_path_in(config: Option<String>) -> (r: String)
        ensures
            r@ == path_join(
                path_join(path_join(crate::config::config_base(config), "xarph"@), "desktop"@),
                "wallpaper_favorites.json"@,
            ),
    {
        let base = match &config {
            Some(x) => x.clone(),
            None => owned("~/.config"),
        };
        let a = join_path(base.as_str(), "xarph");
        let b = join_path(a.as_str(), "desktop");
        join_path(b.as_str(), "wallpaper_favorites.json")
    }

    /// Where the favourites are kept:
    /// `<config>/xarph/desktop/wallpaper_favorites.json`, under the user's
    /// configuration directory as the environment gives it.
    pub fn favorites_path() -> (r: String)
        ensures
            exists|d: Option<String>|
                r@ == path_join(
                    path_join(path_join(crate::config::config_base(d), "xarph"@), "desktop"@),
                    "wallpaper_favorites.json"@,
                ),
    {
        Self::favorites_path_in(crate::locations::config_dir())
    }

    /// The wallpaper of workspace `workspace_id`: the first entry for it in
    /// `workspace_wallpapers`, else the global wallpaper.
    pub fn resolve_wallpaper_for_workspace(
        global: &WallpaperConfig,
        workspace_wallpapers: &[(u8, WallpaperConfig)],
        workspace_id: u8,
    ) -> (r: WallpaperConfig)
        ensures
            (exists|i: int|
                0 <= i < workspace_wallpapers@.len() && (#[trigger] workspace_wallpapers@[i]).0
                    == workspace_id) ==> exists|i: int|
                0 <= i < workspace_wallpapers@.len() && workspace_wallpapers@[i].0 == workspace_id
                    && r == workspace_wallpapers@[i].1 && forall|j: int|
                    0 <= j < i ==> (#[trigger] workspace_wallpapers@[j]).0 != workspace_id,
            (forall|i: int|
                0 <= i < workspace_wallpapers@.len() ==> (#[trigger] workspace_wallpapers@[i]).0
                    != workspace_id) ==> r == *global,
    {
        let mut i: usize = 0;
        while i < workspace_wallpapers.len()
            invariant
                i <= workspace_wallpapers@.len(),
                forall|j: int| 0 <= j < i ==> (#[trigger] workspace_wallpapers@[j]).0 != workspace_id,
            decreases workspace_wallpapers.len() - i,
        {
            if workspace_wallpapers[i].0 == workspace_id {
                return workspace_wallpapers[i].1.duplicate();
            }
            i = i + 1;
        }
        global.duplicate()
    }

    /// The CSS `object-fit`-like keyword of a fitting mode.
    pub fn content_fit(mode: &WallpaperMode) -> (r: &'static str)
        ensures
            *mode == WallpaperMode::Fill ==> r@ == "cover"@,
            *mode == WallpaperMode::Fit ==> r@ == "contain"@,
            *mode == WallpaperMode::Stretch ==> r@ == "stretch"@,
            *mode == WallpaperMode::Center ==> r@ == "center"@,
            *mode == WallpaperMode::Tile ==> r@ == "repeat"@,
    {
        match mode {
            WallpaperMode::Fill => "cover",
            WallpaperMode::Fit => "contain",
            WallpaperMode::Stretch => "stretch",
            WallpaperMode::Center => "center",
            WallpaperMode::Tile => "repeat",
        }
    }

    /// Whether `path` has a video extension.
    pub fn is_video_file(path: &str) -> (r: bool)
        ensures
            r == is_video_path(path@),
    {
        match extension(path) {
            Some(e) => video_ext(e.as_str()),
            None => false,
        }
    }

    /// Whether `path` has an image extension.
    pub fn is_image_file(path: &str) -> (r: bool)
        ensures
            r == is_image_path(path@),
    {
        match extension(path) {
            Some(e) => image_ext(e.as_str()),
            None => false,
        }
    }
}

/// After adding a favourite it is a favourite; adding it again changes
/// nothing.
pub proof fn law_add_favorite(before: Seq<String>, after: Seq<String>, path: Seq<char>, changed: bool)
    requires
        changed == !is_fav(before, path),
        changed ==> after.len() == before.len() + 1 && after.take(before.len() as int) == before
            && after.last()@ == path,
        !changed ==> after == before,
    ensures
        is_fav(after, path),
{
    if changed {
        assert(after[after.len() - 1]@ == path);
    }
}

/// After removing a favourite it is no longer one, and the others stay.
pub proof fn law_remove_favorite(before: Seq<String>, path: Seq<char>, other: Seq<char>)
    requires
        other != path,
    ensures
        !is_fav(without(before, path), path),
        is_fav(without(before, path), other) == is_fav(before, other),
{
    let pred = other_than(path);
    let w = before.filter(pred);
    if is_fav(w, path) {
        let i = choose|i: int| 0 <= i < w.len() && (#[trigger] w[i])@ == path;
        before.lemma_filter_pred(pred, i);
    }
    if is_fav(w, other) {
        let i = choose|i: int| 0 <= i < w.len() && (#[trigger] w[i])@ == other;
        assert(w.contains(w[i]));
        before.lemma_filter_contains_rev(pred, w[i]);
        let k = choose|k: int| 0 <= k < before.len() && before[k] == w[i];
        assert(before[k]@ == other);
    }
    if is_fav(before, other) {
        let k = choose|k: int| 0 <= k < before.len() && (#[trigger] before[k])@ == other;
        before.lemma_filter_contains(pred, k);
        let j = choose|j: int| 0 <= j < w.len() && w[j] == before[k];
        assert(w[j]@ == other);
    }
}

} // verus!
