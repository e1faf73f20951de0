use crate::text::str_eq;
use vstd::prelude::*;
use vstd::string::StringExecFns;

verus! {

/// The colours of a theme, each as red, green, blue.
#[derive(Clone, Copy, Debug, PartialEq, Eq)]
pub struct ThemeColors {
    pub window_bg: [u8; 3],
    pub panel_bg: [u8; 3],
    pub extreme_bg: [u8; 3],
    pub accent: [u8; 3],
    pub widget_hovered: [u8; 3],
    pub widget_inactive: [u8; 3],
    pub text: [u8; 3],
    pub text_dim: [u8; 3],
    pub success: [u8; 3],
    pub error: [u8; 3],
}

/// A look of the front-end.
#[derive(Clone, Debug, PartialEq, Eq)]
pub struct Theme {
    pub id: String,
    pub name: String,
    pub dark_mode: bool,
    pub colors: ThemeColors,
}

/// A theme, as contracts speak of it.
pub struct ThemeView {
    pub id: Seq<char>,
    pub name: Seq<char>,
    pub dark_mode: bool,
    pub colors: Seq<Seq<u8>>,
}

impl View for ThemeColors {
    type V = Seq<Seq<u8>>;

    /// The ten colours in the order of the fields.
    open spec fn view(&self) -> Seq<Seq<u8>> {
        seq![
            self.window_bg@,
            self.panel_bg@,
            self.extreme_bg@,
            self.accent@,
            self.widget_hovered@,
            self.widget_inactive@,
            self.text@,
            self.text_dim@,
            self.success@,
            self.error@,
        ]
    }
}

impl View for Theme {
    type V = ThemeView;

    open spec fn view(&self) -> ThemeView {
        ThemeView {
            id: self.id@,
            name: self.name@,
            dark_mode: self.dark_mode,
            colors: self.colors@,
        }
    }
}

/// Id of the theme that is used where no other is chosen.
pub const DEFAULT_THEME_ID: &'static str = "default";

pub open spec fn spec_default() -> ThemeView {
    ThemeView {
        id: "default"@,
        name: "Default"@,
        dark_mode: true,
        colors: seq![
            seq![12u8, 18u8, 28u8],
            seq![16u8, 24u8, 36u8],
            seq![8u8, 12u8, 20u8],
            seq![0u8, 122u8, 250u8],
            seq![40u8, 60u8, 90u8],
            seq![30u8, 45u8, 70u8],
            seq![240u8, 240u8, 250u8],
            seq![140u8, 150u8, 170u8],
            seq![0u8, 200u8, 100u8],
            seq![255u8, 80u8, 80u8],
        ],
    }
}

pub open spec fn spec_deep_dark() -> ThemeView {
    ThemeView {
        id: "deep_dark"@,
        name: "Deep Dark"@,
        dark_mode: true,
        colors: seq![
            seq![0u8, 0u8, 0u8],
            seq![8u8, 8u8, 8u8],
            seq![0u8, 0u8, 0u8],
            seq![0u8, 122u8, 255u8],
            seq![30u8, 30u8, 40u8],
            seq![20u8, 20u8, 28u8],
            seq![245u8, 245u8, 255u8],
            seq![120u8, 120u8, 140u8],
            seq![30u8, 215u8, 96u8],
            seq![255u8, 69u8, 58u8],
        ],
    }
}

pub open spec fn spec_tokyo_night() -> ThemeView {
    ThemeView {
        id: "tokyo_night"@,
        name: "Tokyo Night"@,
        dark_mode: true,
        colors: seq![
            seq![26u8, 27u8, 38u8],
            seq![22u8, 22u8, 30u8],
            seq![16u8, 16u8, 24u8],
            seq![122u8, 162u8, 247u8],
            seq![41u8, 46u8, 66u8],
            seq![32u8, 36u8, 54u8],
            seq![192u8, 202u8, 245u8],
            seq![86u8, 95u8, 137u8],
            seq![158u8, 206u8, 106u8],
            seq![247u8, 118u8, 142u8],
        ],
    }
}

/// The default theme.
pub fn default() -> (theme: Theme)
    ensures
        theme@ =~~= spec_default(),
{
    Theme {
        id: "default".to_owned(),
        dark_mode: true,
        name: "Default".to_owned(),
        colors: ThemeColors {
            window_bg: [12, 18, 28],
            panel_bg: [16, 24, 36],
            extreme_bg: [8, 12, 20],
            accent: [0, 122, 250],
            widget_hovered: [40, 60, 90],
            widget_inactive: [30, 45, 70],
            text: [240, 240, 250],
            text_dim: [140, 150, 170],
            success: [0, 200, 100],
            error: [255, 80, 80],
        },
    }
}

/// The theme "Deep Dark".
pub fn deep_dark() -> (theme: Theme)
    ensures
        theme@ =~~= spec_deep_dark(),
{
    Theme {
        id: "deep_dark".to_owned(),
        dark_mode: true,
        name: "Deep Dark".to_owned(),
        colors: ThemeColors {
            window_bg: [0, 0, 0],
            panel_bg: [8, 8, 8],
            extreme_bg: [0, 0, 0],
            accent: [0, 122, 255],
            widget_hovered: [30, 30, 40],
            widget_inactive: [20, 20, 28],
            text: [245, 245, 255],
            text_dim: [120, 120, 140],
            success: [30, 215, 96],
            error: [255, 69, 58],
        },
    }
}

/// The theme "Tokyo Night".
pub fn tokyo_night() -> (theme: Theme)
    ensures
        theme@ =~~= spec_tokyo_night(),
{
    Theme {
        id: "tokyo_night".to_owned(),
        dark_mode: true,
        name: "Tokyo Night".to_owned(),
        colors: ThemeColors {
            window_bg: [26, 27, 38],
            panel_bg: [22, 22, 30],
            extreme_bg: [16, 16, 24],
            accent: [122, 162, 247],
            widget_hovered: [41, 46, 66],
            widget_inactive: [32, 36, 54],
            text: [192, 202, 245],
            text_dim: [86, 95, 137],
            success: [158, 206, 106],
            error: [247, 118, 142],
        },
    }
}

/// The themes that are built in, in the order in which they are offered.
pub fn builtin_themes() -> (themes: Vec<Theme>)
    ensures
        themes@.len() == 3,
        themes@[0]@ =~~= spec_default(),
        themes@[1]@ =~~= spec_deep_dark(),
        themes@[2]@ =~~= spec_tokyo_night(),
{
    let mut themes = Vec::new();
    themes.push(default());
    themes.push(deep_dark());
    themes.push(tokyo_night());
    themes
}

pub fn default_theme() -> (theme: Theme)
    ensures
        theme@ =~~= spec_default(),
{
    default()
}

/// The built-in theme with id `id`; the default theme where there is none.
pub open spec fn spec_theme_by_id(id: Seq<char>) -> ThemeView {
    if id == spec_default().id {
        spec_default()
    } else if id == spec_deep_dark().id {
        spec_deep_dark()
    } else if id == spec_tokyo_night().id {
        spec_tokyo_night()
    } else {
        spec_default()
    }
}

pub fn theme_by_id(id: &str) -> (theme: Theme)
    ensures
        theme@ =~~= spec_theme_by_id(id@),
{
    if str_eq(id, "default") {
        default()
    } else if str_eq(id, "deep_dark") {
        deep_dark()
    } else if str_eq(id, "tokyo_night") {
        tokyo_night()
    } else {
        default_theme()
    }
}

/// Whether `i` is the place of the first theme with id `id` in `themes`,
/// or their number where none has that id.
pub open spec fn spec_is_first_with_id(themes: Seq<Theme>, id: Seq<char>, i: int) -> bool {
    &&& 0 <= i <= themes.len()
    &&& forall|j: int| 0 <= j < i ==> (#[trigger] themes[j]).id@ != id
    &&& i < themes.len() ==> themes[i].id@ == id
}

/// Finds the first theme with id `id` in `themes`; answers with their
/// number where none has that id.
pub fn find_theme(themes: &Vec<Theme>, id: &str) -> (i: usize)
    ensures
        spec_is_first_with_id(themes@, id@, i as int),
{
    let mut i: usize = 0;
    while i < themes.len()
        invariant
            i <= themes@.len(),
            forall|j: int| 0 <= j < i ==> (#[trigger] themes@[j]).id@ != id@,
        decreases themes@.len() - i,
    {
        if str_eq(themes[i].id.as_str(), id) {
            return i;
        }
        i += 1;
    }
    i
}

/// Adds a theme to a list: it takes the place of the first theme with
/// its id, or stands at the end where there is none.
pub fn merge_theme(themes: &mut Vec<Theme>, theme: Theme)
    ensures
        forall|i: int|
            spec_is_first_with_id(old(themes)@, theme.id@, i) ==> final(themes)@ == if i < old(
                themes,
            )@.len() {
                old(themes)@.update(i, theme)
            } else {
                old(themes)@.push(theme)
            },
{
    let found = find_theme(themes, theme.id.as_str());
    proof {
        assert forall|i: int| spec_is_first_with_id(themes@, theme.id@, i) implies i == found by {
            if i < found {
                assert(themes@[i].id@ == theme.id@);
            }
            if found < i {
                assert(themes@[found as int].id@ == theme.id@);
            }
        }
    }
    if found < themes.len() {
        themes[found] = theme;
    } else {
        themes.push(theme);
    }
}

/// Name of the file that holds the theme with id `id`.
pub fn theme_file_name(id: &str) -> (name: String)
    ensures
        name@ == id@ + ".json"@,
{
    id.to_owned().concat(".json")
}

} // verus!
