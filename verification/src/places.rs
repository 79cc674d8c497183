//! The sidebar's list of well-known places.
//!
//! Which directories exist on a machine is for the caller to find out. The
//! order of the list, its labels and its icons are settled here.

use crate::path::{join, opt_view, path_join};
use vstd::prelude::*;
use vstd::string::StringExecFns;

verus! {

/// One row of the sidebar.
pub struct Place {
    /// Text of the row.
    pub label: &'static str,
    /// Name of the icon in front of it.
    pub icon: &'static str,
    /// Where activating the row leads.
    pub path: String,
}

/// One row of the sidebar, as the model sees it.
pub struct PlaceModel {
    pub label: Seq<char>,
    pub icon: Seq<char>,
    pub path: Seq<char>,
}

impl View for Place {
    type V = PlaceModel;

    open spec fn view(&self) -> PlaceModel {
        PlaceModel { label: self.label@, icon: self.icon@, path: self.path@ }
    }
}

/// The user's directories as far as the machine has them.
pub struct KnownDirs {
    pub home: Option<String>,
    /// The desktop directory, if it exists. [`desktop_dir`] tells where to look.
    pub desktop: Option<String>,
    pub documents: Option<String>,
    pub downloads: Option<String>,
    pub music: Option<String>,
    pub pictures: Option<String>,
    pub videos: Option<String>,
}

/// The rows of a sequence, as the model sees them.
pub open spec fn place_views(places: Seq<Place>) -> Seq<PlaceModel> {
    Seq::new(places.len(), |i: int| places[i]@)
}

/// The row for a directory that may be missing: one row, or none.
pub open spec fn row_if_present(
    label: Seq<char>,
    icon: Seq<char>,
    dir: Option<Seq<char>>,
) -> Seq<PlaceModel> {
    match dir {
        Some(path) => seq![PlaceModel { label, icon, path }],
        None => Seq::empty(),
    }
}

/// The sidebar for the given directories: home, desktop, documents,
/// downloads, music, pictures and videos, each only if present, and the
/// root of the file system, always, at the end.
pub open spec fn sidebar_rows(dirs: KnownDirs) -> Seq<PlaceModel> {
    row_if_present("Home"@, "user-home-symbolic"@, opt_view(dirs.home)) + row_if_present(
        "Desktop"@,
        "user-desktop-symbolic"@,
        opt_view(dirs.desktop),
    ) + row_if_present("Documents"@, "folder-documents-symbolic"@, opt_view(dirs.documents))
        + row_if_present("Downloads"@, "folder-download-symbolic"@, opt_view(dirs.downloads))
        + row_if_present("Music"@, "folder-music-symbolic"@, opt_view(dirs.music)) + row_if_present(
        "Pictures"@,
        "folder-pictures-symbolic"@,
        opt_view(dirs.pictures),
    ) + row_if_present("Videos"@, "folder-videos-symbolic"@, opt_view(dirs.videos)) + seq![
        PlaceModel { label: "Root"@, icon: "drive-harddisk-symbolic"@, path: "/"@ },
    ]
}

/// Where the desktop directory of a home directory is looked for.
pub fn desktop_dir(home: &str) -> (desktop: String)
    ensures
        desktop@ == path_join(home@, "Desktop"@),
{
    join(home, "Desktop")
}

/// Adds the row for `dir` to `places` if there is such a directory.
fn push_if_present(
    places: &mut Vec<Place>,
    label: &'static str,
    icon: &'static str,
    dir: Option<String>,
)
    ensures
        place_views(final(places)@) == place_views(old(places)@) + row_if_present(
            label@,
            icon@,
            opt_view(dir),
        ),
{
    match dir {
        Some(path) => {
            places.push(Place { label, icon, path });
        },
        None => {},
    }
    assert(place_views(places@) =~= place_views(old(places)@) + row_if_present(
        label@,
        icon@,
        opt_view(dir),
    ));
}

/// Lists the rows of the sidebar.
pub fn places(dirs: KnownDirs) -> (rows: Vec<Place>)
    ensures
        place_views(rows@) == sidebar_rows(dirs),
        rows.len() >= 1,
        rows[rows.len() - 1]@ == (PlaceModel {
            label: "Root"@,
            icon: "drive-harddisk-symbolic"@,
            path: "/"@,
        }),
{
    let mut rows: Vec<Place> = Vec::new();
    assert(place_views(rows@) =~= Seq::<PlaceModel>::empty());
    push_if_present(&mut rows, "Home", "user-home-symbolic", dirs.home);
    push_if_present(&mut rows, "Desktop", "user-desktop-symbolic", dirs.desktop);
    push_if_present(&mut rows, "Documents", "folder-documents-symbolic", dirs.documents);
    push_if_present(&mut rows, "Downloads", "folder-download-symbolic", dirs.downloads);
    push_if_present(&mut rows, "Music", "folder-music-symbolic", dirs.music);
    push_if_present(&mut rows, "Pictures", "folder-pictures-symbolic", dirs.pictures);
    push_if_present(&mut rows, "Videos", "folder-videos-symbolic", dirs.videos);
    let ghost before = place_views(rows@);
    rows.push(
        Place { label: "Root", icon: "drive-harddisk-symbolic", path: String::from_str("/") },
    );
    assert(place_views(rows@) =~= before + seq![
        PlaceModel { label: "Root"@, icon: "drive-harddisk-symbolic"@, path: "/"@ },
    ]);
    assert(place_views(rows@) =~= sidebar_rows(dirs));
    rows
}

} // verus!
