//! Types of the compositor IPC protocol that carry no floating-point data,
//! with the parsers by which they are read from command-line arguments.
use vstd::prelude::*;

use crate::text::{chars_of, decimal, extend_str, owned, parse_int, parse_int_chars, str_eq, string_of, u64_to_string};

verus! {

// ── Action arguments ────────────────────────────────────────────────────

/// A workspace named by id, by index on its monitor, or by name.
#[derive(Debug, Clone)]
pub enum WorkspaceReferenceArg {
    Id(u64),
    Index(u8),
    Name(String),
}

/// The layout a keyboard layout switch goes to.
#[derive(Debug, Clone, Copy, PartialEq, Eq, Structural)]
pub enum LayoutSwitchTarget {
    Next,
    Prev,
    Index(u8),
}

/// How the windows of a column are shown.
#[derive(Debug, Clone, Copy, PartialEq, Eq, Structural)]
pub enum ColumnDisplay {
    Normal,
    Tabbed,
}

/// What `WorkspaceReferenceArg::from_str` gives for `s`: an index for a
/// 32-bit integer in 0..=255, an error for any other 32-bit integer, a name
/// for anything that is not one.
pub open spec fn workspace_reference(s: Seq<char>) -> Option<Option<int>> {
    match parse_int(s, true, -0x8000_0000, 0x7fff_ffff) {
        Some(v) => if 0 <= v <= 255 { Some(Some(v)) } else { None },
        None => Some(None),
    }
}

impl WorkspaceReferenceArg {
    /// Parses a workspace reference: a number is an index (it must lie in
    /// 0..=255), anything else a name.
    pub fn from_str(s: &str) -> (r: Result<WorkspaceReferenceArg, &'static str>)
        ensures
            match workspace_reference(s@) {
                Some(Some(v)) => r matches Ok(WorkspaceReferenceArg::Index(i)) && i == v,
                Some(None) => r matches Ok(WorkspaceReferenceArg::Name(n)) && n@ == s@,
                None => r matches Err(e) && e@ == "workspace index must be between 0 and 255"@,
            },
    {
        let cs = chars_of(s);
        match parse_int_chars(&cs, true, -0x8000_0000, 0x7fff_ffff) {
            Some(v) => {
                if 0 <= v && v <= 255 {
                    Ok(WorkspaceReferenceArg::Index(v as u8))
                } else {
                    Err("workspace index must be between 0 and 255")
                }
            },
            None => Ok(WorkspaceReferenceArg::Name(owned(s))),
        }
    }
}

impl LayoutSwitchTarget {
    /// Parses `next`, `prev` or a layout index (0..=255).
    pub fn from_str(s: &str) -> (r: Result<LayoutSwitchTarget, &'static str>)
        ensures
            s@ == "next"@ ==> r == Ok::<LayoutSwitchTarget, &'static str>(LayoutSwitchTarget::Next),
            s@ != "next"@ && s@ == "prev"@ ==> r == Ok::<LayoutSwitchTarget, &'static str>(
                LayoutSwitchTarget::Prev,
            ),
            s@ != "next"@ && s@ != "prev"@ ==> match parse_int(s@, false, 0, 255) {
                Some(v) => r matches Ok(LayoutSwitchTarget::Index(i)) && i == v,
                None => r matches Err(e) && e@
                    == "invalid layout action, can be \"next\", \"prev\" or a layout index"@,
            },
    {
        if str_eq(s, "next") {
            Ok(LayoutSwitchTarget::Next)
        } else if str_eq(s, "prev") {
            Ok(LayoutSwitchTarget::Prev)
        } else {
            let cs = chars_of(s);
            match parse_int_chars(&cs, false, 0, 255) {
                Some(v) => Ok(LayoutSwitchTarget::Index(v as u8)),
                None => Err("invalid layout action, can be \"next\", \"prev\" or a layout index"),
            }
        }
    }
}

impl ColumnDisplay {
    /// Parses `normal` or `tabbed`.
    pub fn from_str(s: &str) -> (r: Result<ColumnDisplay, &'static str>)
        ensures
            s@ == "normal"@ ==> r == Ok::<ColumnDisplay, &'static str>(ColumnDisplay::Normal),
            s@ != "normal"@ && s@ == "tabbed"@ ==> r == Ok::<ColumnDisplay, &'static str>(
                ColumnDisplay::Tabbed,
            ),
            s@ != "normal"@ && s@ != "tabbed"@ ==> (r matches Err(e) && e@
                == "invalid column display, can be \"normal\" or \"tabbed\""@),
    {
        if str_eq(s, "normal") {
            Ok(ColumnDisplay::Normal)
        } else if str_eq(s, "tabbed") {
            Ok(ColumnDisplay::Tabbed)
        } else {
            Err("invalid column display, can be \"normal\" or \"tabbed\"")
        }
    }
}

// ── Size and position changes ───────────────────────────────────────────

/// What a size or position change argument asks for, apart from its
/// number: set or adjust (a leading sign), in pixels or in percent of the
/// working area (a trailing `%`).
#[derive(Debug, Clone, Copy, PartialEq, Eq, Structural)]
pub enum ChangeKind {
    SetFixed,
    SetProportion,
    AdjustFixed,
    AdjustProportion,
}

/// Whether a number text asks for an adjustment: it starts with a sign.
pub open spec fn signed_text(v: Seq<char>) -> bool {
    v.len() > 0 && (v[0] == '-' || v[0] == '+')
}

/// How a change argument reads: the text before the first `%` (which must
/// end the argument) is a proportion, a text without `%` a pixel value; a
/// sign makes it an adjustment. The error when it cannot be read.
pub open spec fn change_reading(s: Seq<char>) -> Result<(ChangeKind, Seq<char>), Seq<char>> {
    match split_once_at(s, '%') {
        Some((value, rest)) => if rest.len() > 0 {
            Err("trailing characters after '%' are not allowed"@)
        } else if value.len() == 0 {
            Err("value is missing"@)
        } else if signed_text(value) {
            Ok((ChangeKind::AdjustProportion, value))
        } else {
            Ok((ChangeKind::SetProportion, value))
        },
        None => if s.len() == 0 {
            Err("value is missing"@)
        } else if signed_text(s) {
            Ok((ChangeKind::AdjustFixed, s))
        } else {
            Ok((ChangeKind::SetFixed, s))
        },
    }
}

/// Splits a size or position change argument into what it asks for and the
/// text of its number (parsed by the caller: as an `i32` for a pixel size,
/// as a floating-point number otherwise).
pub fn read_change(s: &str) -> (r: Result<(ChangeKind, String), &'static str>)
    ensures
        match change_reading(s@) {
            Ok((kind, v)) => r matches Ok((k, t)) && k == kind && t@ == v,
            Err(m) => r matches Err(e) && e@ == m,
        },
{
    proof {
        reveal_strlit("trailing characters after '%' are not allowed");
        reveal_strlit("value is missing");
    }
    let cs = chars_of(s);
    match split_once_chars(&cs, '%') {
        Some((value, rest)) => {
            if rest.len() > 0 {
                Err("trailing characters after '%' are not allowed")
            } else if value.len() == 0 {
                Err("value is missing")
            } else {
                let kind = if value[0] == '-' || value[0] == '+' {
                    ChangeKind::AdjustProportion
                } else {
                    ChangeKind::SetProportion
                };
                Ok((kind, string_of(&value)))
            }
        },
        None => {
            if cs.len() == 0 {
                Err("value is missing")
            } else {
                let kind = if cs[0] == '-' || cs[0] == '+' {
                    ChangeKind::AdjustFixed
                } else {
                    ChangeKind::SetFixed
                };
                Ok((kind, owned(s)))
            }
        },
    }
}

/// The pixel value of a size change: the number text as an `i32`.
pub fn fixed_size_value(v: &str) -> (r: Result<i32, &'static str>)
    ensures
        match parse_int(v@, true, i32::MIN as int, i32::MAX as int) {
            Some(x) => r == Ok::<i32, &'static str>(x as i32),
            None => r matches Err(e) && e@ == "error parsing value"@,
        },
{
    let cs = chars_of(v);
    match parse_int_chars(&cs, true, -0x8000_0000, 0x7fff_ffff) {
        Some(x) => Ok(x as i32),
        None => Err("error parsing value"),
    }
}

// ── Modes and scales ────────────────────────────────────────────────────

/// Whether a mode or scale argument asks for the automatic choice: `auto`,
/// in any case.
pub fn is_automatic(s: &str) -> (r: bool)
    ensures
        r == crate::app_registry::eq_ignore_ascii_case(s@, "auto"@),
{
    crate::app_registry::str_eq_ignore_ascii_case(s, "auto")
}

/// `k` is the position of the first `c` of `s`.
pub open spec fn is_first_of(s: Seq<char>, c: char, k: int) -> bool {
    &&& 0 <= k < s.len()
    &&& s[k] == c
    &&& forall|j: int| 0 <= j < k ==> s[j] != c
}

/// The text of `s` before and after its first `c` (`str::split_once`).
pub open spec fn split_once_at(s: Seq<char>, c: char) -> Option<(Seq<char>, Seq<char>)> {
    if exists|k: int| is_first_of(s, c, k) {
        let k = choose|k: int| is_first_of(s, c, k);
        Some((s.take(k), s.skip(k + 1)))
    } else {
        None
    }
}

/// How a mode argument `<width>x<height>[@<refresh>]` reads up to its
/// refresh rate: the width and the height as 16-bit numbers and the text of
/// the refresh rate, if any (parsed by the caller as a floating-point
/// number); else the error of the first part that cannot be read.
pub open spec fn mode_reading(s: Seq<char>) -> Result<(int, int, Option<Seq<char>>), Seq<char>> {
    match split_once_at(s, 'x') {
        None => Err("no 'x' separator found"@),
        Some((width, rest)) => {
            let (height, refresh) = match split_once_at(rest, '@') {
                Some((h, r)) => (h, Some(r)),
                None => (rest, None),
            };
            match parse_int(width, false, 0, 0xffff) {
                None => Err("error parsing width"@),
                Some(w) => match parse_int(height, false, 0, 0xffff) {
                    None => Err("error parsing height"@),
                    Some(h) => Ok((w, h, refresh)),
                },
            }
        },
    }
}

/// The position of the first `c` of `s`, or its length.
fn first_index(s: &Vec<char>, c: char) -> (r: usize)
    ensures
        r <= s@.len(),
        forall|j: int| 0 <= j < r ==> s@[j] != c,
        r < s@.len() ==> s@[r as int] == c,
{
    let mut k: usize = 0;
    while k < s.len() && s[k] != c
        invariant
            k <= s@.len(),
            forall|j: int| 0 <= j < k ==> s@[j] != c,
        decreases s.len() - k,
    {
        k = k + 1;
    }
    k
}

/// The characters of `s` from `a` to `b`.
fn slice_chars(s: &Vec<char>, a: usize, b: usize) -> (r: Vec<char>)
    requires
        a <= b <= s@.len(),
    ensures
        r@ == s@.subrange(a as int, b as int),
{
    let mut r: Vec<char> = Vec::new();
    let mut i: usize = a;
    while i < b
        invariant
            a <= i <= b,
            b <= s@.len(),
            r@ == s@.subrange(a as int, i as int),
        decreases b - i,
    {
        r.push(s[i]);
        proof {
            assert(r@ =~= s@.subrange(a as int, i + 1));
        }
        i = i + 1;
    }
    r
}

/// `str::split_once` at the first `c`.
fn split_once_chars(s: &Vec<char>, c: char) -> (r: Option<(Vec<char>, Vec<char>)>)
    ensures
        match split_once_at(s@, c) {
            Some((a, b)) => r matches Some((x, y)) && x@ == a && y@ == b,
            None => r is None,
        },
{
    let k = first_index(s, c);
    if k < s.len() {
        proof {
            assert(is_first_of(s@, c, k as int));
            let m = choose|m: int| is_first_of(s@, c, m);
            if m < k {
                assert(s@[m] == c);
            } else if m > k {
                assert(s@[k as int] != c);
            }
            assert(s@.take(k as int) =~= s@.subrange(0, k as int));
            assert(s@.skip(k + 1) =~= s@.subrange(k + 1, s@.len() as int));
        }
        Some((slice_chars(s, 0, k), slice_chars(s, k + 1, s.len())))
    } else {
        proof {
            assert forall|m: int| !is_first_of(s@, c, m) by {
                if is_first_of(s@, c, m) {
                    assert(s@[m] != c);
                }
            }
        }
        None
    }
}

/// Reads a mode argument up to its refresh rate: the width, the height and
/// the text of the refresh rate, if any.
pub fn read_mode(s: &str) -> (r: Result<(u16, u16, Option<String>), &'static str>)
    ensures
        match mode_reading(s@) {
            Ok((w, h, refresh)) => r matches Ok((a, b, t)) && a == w && b == h && match refresh {
                Some(x) => t matches Some(y) && y@ == x,
                None => t is None,
            },
            Err(m) => r matches Err(e) && e@ == m,
        },
{
    proof {
        reveal_strlit("no 'x' separator found");
        reveal_strlit("error parsing width");
        reveal_strlit("error parsing height");
    }
    let cs = chars_of(s);
    let (width, rest) = match split_once_chars(&cs, 'x') {
        Some(p) => p,
        None => {
            return Err("no 'x' separator found");
        },
    };
    let (height, refresh) = match split_once_chars(&rest, '@') {
        Some((h, r)) => (h, Some(string_of(&r))),
        None => (rest, None),
    };
    let w = match parse_int_chars(&width, false, 0, 0xffff) {
        Some(v) => v as u16,
        None => {
            return Err("error parsing width");
        },
    };
    let h = match parse_int_chars(&height, false, 0, 0xffff) {
        Some(v) => v as u16,
        None => {
            return Err("error parsing height");
        },
    };
    Ok((w, h, refresh))
}

// ── Outputs ─────────────────────────────────────────────────────────────

/// Horizontal sync polarity of a modeline.
#[derive(Debug, Clone, Copy, PartialEq, Eq, Structural)]
pub enum HSyncPolarity {
    PHSync,
    NHSync,
}

/// Vertical sync polarity of a modeline.
#[derive(Debug, Clone, Copy, PartialEq, Eq, Structural)]
pub enum VSyncPolarity {
    PVSync,
    NVSync,
}

impl HSyncPolarity {
    /// Parses `+hsync` or `-hsync`.
    pub fn from_str(s: &str) -> (r: Result<HSyncPolarity, &'static str>)
        ensures
            s@ == "+hsync"@ ==> r == Ok::<HSyncPolarity, &'static str>(HSyncPolarity::PHSync),
            s@ != "+hsync"@ && s@ == "-hsync"@ ==> r == Ok::<HSyncPolarity, &'static str>(
                HSyncPolarity::NHSync,
            ),
            s@ != "+hsync"@ && s@ != "-hsync"@ ==> (r matches Err(e) && e@
                == "invalid horizontal sync polarity, can be \"+hsync\" or \"-hsync"@),
    {
        if str_eq(s, "+hsync") {
            Ok(HSyncPolarity::PHSync)
        } else if str_eq(s, "-hsync") {
            Ok(HSyncPolarity::NHSync)
        } else {
            Err("invalid horizontal sync polarity, can be \"+hsync\" or \"-hsync")
        }
    }
}

impl VSyncPolarity {
    /// Parses `+vsync` or `-vsync`.
    pub fn from_str(s: &str) -> (r: Result<VSyncPolarity, &'static str>)
        ensures
            s@ == "+vsync"@ ==> r == Ok::<VSyncPolarity, &'static str>(VSyncPolarity::PVSync),
            s@ != "+vsync"@ && s@ == "-vsync"@ ==> r == Ok::<VSyncPolarity, &'static str>(
                VSyncPolarity::NVSync,
            ),
            s@ != "+vsync"@ && s@ != "-vsync"@ ==> (r matches Err(e) && e@
                == "invalid vertical sync polarity, can be \"+vsync\" or \"-vsync"@),
    {
        if str_eq(s, "+vsync") {
            Ok(VSyncPolarity::PVSync)
        } else if str_eq(s, "-vsync") {
            Ok(VSyncPolarity::NVSync)
        } else {
            Err("invalid vertical sync polarity, can be \"+vsync\" or \"-vsync")
        }
    }
}

/// An output position in logical pixels.
#[derive(Debug, Clone, Copy, PartialEq, Eq, Structural)]
pub struct ConfiguredPosition {
    pub x: i32,
    pub y: i32,
}

/// The position to give an output.
#[derive(Debug, Clone, Copy, PartialEq, Eq, Structural)]
pub enum PositionToSet {
    Automatic,
    Specific(ConfiguredPosition),
}

/// The variable refresh rate mode to give an output.
#[derive(Debug, Clone, Copy, PartialEq, Eq, Structural)]
pub struct VrrToSet {
    pub vrr: bool,
    pub on_demand: bool,
}

/// An output mode; the refresh rate in millihertz.
#[derive(Debug, Clone, Copy, PartialEq, Eq, Structural)]
pub struct Mode {
    pub width: u16,
    pub height: u16,
    pub refresh_rate: u32,
    pub is_preferred: bool,
}

/// An output transform, counter-clockwise.
#[derive(Debug, Clone, Copy, PartialEq, Eq, Structural)]
pub enum Transform {
    Normal,
    _90,
    _180,
    _270,
    Flipped,
    Flipped90,
    Flipped180,
    Flipped270,
}

/// The names `Transform::from_str` accepts, in the order it tries them.
pub open spec fn transform_of(s: Seq<char>) -> Option<Transform> {
    if s == "normal"@ { Some(Transform::Normal) }
    else if s == "90"@ { Some(Transform::_90) }
    else if s == "180"@ { Some(Transform::_180) }
    else if s == "270"@ { Some(Transform::_270) }
    else if s == "flipped"@ { Some(Transform::Flipped) }
    else if s == "flipped-90"@ { Some(Transform::Flipped90) }
    else if s == "flipped-180"@ { Some(Transform::Flipped180) }
    else if s == "flipped-270"@ { Some(Transform::Flipped270) }
    else { None }
}

impl Transform {
    /// Parses a transform name.
    pub fn from_str(s: &str) -> (r: Result<Transform, &'static str>)
        ensures
            match transform_of(s@) {
                Some(t) => r == Ok::<Transform, &'static str>(t),
                None => r matches Err(e) && e@
                    == "invalid transform, can be \"90\", \"180\", \"270\", \"flipped\", \"flipped-90\", \"flipped-180\" or \"flipped-270\""@,
            },
    {
        if str_eq(s, "normal") { Ok(Transform::Normal) }
        else if str_eq(s, "90") { Ok(Transform::_90) }
        else if str_eq(s, "180") { Ok(Transform::_180) }
        else if str_eq(s, "270") { Ok(Transform::_270) }
        else if str_eq(s, "flipped") { Ok(Transform::Flipped) }
        else if str_eq(s, "flipped-90") { Ok(Transform::Flipped90) }
        else if str_eq(s, "flipped-180") { Ok(Transform::Flipped180) }
        else if str_eq(s, "flipped-270") { Ok(Transform::Flipped270) }
        else {
            Err(
                "invalid transform, can be \"90\", \"180\", \"270\", \"flipped\", \"flipped-90\", \"flipped-180\" or \"flipped-270\"",
            )
        }
    }
}

/// The maximum bits per channel of an output.
#[derive(Debug, Clone, Copy, PartialEq, Eq, Structural)]
pub enum MaxBpc {
    _6,
    _8,
    _10,
    _12,
    _14,
    _16,
}

impl Default for MaxBpc {
    fn default() -> (r: Self)
        ensures
            r == MaxBpc::_8,
    {
        MaxBpc::_8
    }
}

/// The number of bits per channel of each `MaxBpc`.
pub open spec fn bpc_bits(b: MaxBpc) -> int {
    match b {
        MaxBpc::_6 => 6,
        MaxBpc::_8 => 8,
        MaxBpc::_10 => 10,
        MaxBpc::_12 => 12,
        MaxBpc::_14 => 14,
        MaxBpc::_16 => 16,
    }
}

impl MaxBpc {
    /// The number of bits per channel.
    pub fn bits(self) -> (r: u8)
        ensures
            r == bpc_bits(self),
    {
        match self {
            MaxBpc::_6 => 6,
            MaxBpc::_8 => 8,
            MaxBpc::_10 => 10,
            MaxBpc::_12 => 12,
            MaxBpc::_14 => 14,
            MaxBpc::_16 => 16,
        }
    }

    /// The `MaxBpc` of `value` bits per channel, which must be 6, 8, 10, 12,
    /// 14 or 16.
    pub fn try_from(value: u8) -> (r: Result<MaxBpc, &'static str>)
        ensures
            r matches Ok(b) ==> bpc_bits(b) == value,
            r is Err <==> !(value == 6 || value == 8 || value == 10 || value == 12 || value == 14
                || value == 16),
            r matches Err(e) ==> e@ == "invalid max-bpc, can be 6, 8, 10, 12, 14, 16"@,
    {
        if value == 6 {
            Ok(MaxBpc::_6)
        } else if value == 8 {
            Ok(MaxBpc::_8)
        } else if value == 10 {
            Ok(MaxBpc::_10)
        } else if value == 12 {
            Ok(MaxBpc::_12)
        } else if value == 14 {
            Ok(MaxBpc::_14)
        } else if value == 16 {
            Ok(MaxBpc::_16)
        } else {
            Err("invalid max-bpc, can be 6, 8, 10, 12, 14, 16")
        }
    }

    /// Parses a number of bits per channel; text that is no `u8` counts as 0
    /// and so is refused.
    pub fn from_str(s: &str) -> (r: Result<MaxBpc, &'static str>)
        ensures
            match parse_int(s@, false, 0, 255) {
                Some(v) => (r matches Ok(b) ==> bpc_bits(b) == v) && (r is Err <==> !(v == 6
                    || v == 8 || v == 10 || v == 12 || v == 14 || v == 16)),
                None => r is Err,
            },
            r matches Err(e) ==> e@ == "invalid max-bpc, can be 6, 8, 10, 12, 14, 16"@,
    {
        let cs = chars_of(s);
        let v: u8 = match parse_int_chars(&cs, false, 0, 255) {
            Some(v) => v as u8,
            None => 0,
        };
        Self::try_from(v)
    }
}

/// A layer-shell layer.
#[derive(Debug, Clone, Copy, PartialEq, Eq, Structural)]
pub enum Layer {
    Background,
    Bottom,
    Top,
    Overlay,
}

impl Layer {
    /// Parses a layer name.
    pub fn from_str(s: &str) -> (r: Result<Layer, &'static str>)
        ensures
            s@ == "background"@ ==> r == Ok::<Layer, &'static str>(Layer::Background),
            s@ != "background"@ && s@ == "bottom"@ ==> r == Ok::<Layer, &'static str>(Layer::Bottom),
            s@ != "background"@ && s@ != "bottom"@ && s@ == "top"@ ==> r == Ok::<Layer, &'static str>(
                Layer::Top,
            ),
            s@ != "background"@ && s@ != "bottom"@ && s@ != "top"@ && s@ == "overlay"@ ==> r
                == Ok::<Layer, &'static str>(Layer::Overlay),
            s@ != "background"@ && s@ != "bottom"@ && s@ != "top"@ && s@ != "overlay"@ ==> (r matches Err(e)
                && e@ == "invalid layer, can be \"background\", \"bottom\", \"top\" or \"overlay\""@),
    {
        if str_eq(s, "background") {
            Ok(Layer::Background)
        } else if str_eq(s, "bottom") {
            Ok(Layer::Bottom)
        } else if str_eq(s, "top") {
            Ok(Layer::Top)
        } else if str_eq(s, "overlay") {
            Ok(Layer::Overlay)
        } else {
            Err("invalid layer, can be \"background\", \"bottom\", \"top\" or \"overlay\"")
        }
    }
}

/// Keyboard focus modes of a layer-shell surface.
#[derive(Debug, Clone, Copy, PartialEq, Eq, Structural)]
pub enum LayerSurfaceKeyboardInteractivity {
    /// The surface cannot receive keyboard focus (`None` in the protocol).
    NoFocus,
    Exclusive,
    OnDemand,
}

/// A layer-shell surface.
#[derive(Debug, Clone)]
pub struct LayerSurface {
    pub namespace: String,
    pub output: String,
    pub layer: Layer,
    pub keyboard_interactivity: LayerSurfaceKeyboardInteractivity,
}

/// A moment of the monotonic clock.
#[derive(Debug, Clone, Copy, PartialEq, Eq, Structural)]
pub struct Timestamp {
    pub secs: u64,
    pub nanos: u32,
}

/// Whether an output configuration change took effect at once.
#[derive(Debug, Clone, Copy, PartialEq, Eq, Structural)]
pub enum OutputConfigChanged {
    Applied,
    OutputWasMissing,
}

/// A workspace of the compositor.
#[derive(Debug, Clone)]
pub struct Workspace {
    pub id: u64,
    pub idx: u8,
    pub name: Option<String>,
    pub output: Option<String>,
    pub is_urgent: bool,
    pub is_active: bool,
    pub is_focused: bool,
    pub active_window_id: Option<u64>,
}

/// The configured keyboard layouts and the active one.
#[derive(Debug, Clone)]
pub struct KeyboardLayouts {
    pub names: Vec<String>,
    pub current_idx: u8,
}

/// The kind of a screencast.
#[derive(Debug, Clone, Copy, PartialEq, Eq, Structural)]
pub enum CastKind {
    PipeWire,
    WlrScreencopy,
}

/// What a screencast captures.
#[derive(Debug, Clone)]
pub enum CastTarget {
    Nothing {},
    Output { name: String },
    Window { id: u64 },
}

/// A screencast.
#[derive(Debug, Clone)]
pub struct Cast {
    pub stream_id: u64,
    pub session_id: u64,
    pub kind: CastKind,
    pub target: CastTarget,
    pub is_dynamic_target: bool,
    pub is_active: bool,
    pub pid: Option<i32>,
    pub pw_node_id: Option<u32>,
}

/// Whether the overview is open.
#[derive(Debug, Clone, Copy, PartialEq, Eq, Structural)]
pub struct Overview {
    pub is_open: bool,
}

// ── Workspace helpers ───────────────────────────────────────────────────

/// Extension methods of a workspace.
pub trait WorkspaceExt {
    /// The name of the workspace, else its index in decimal.
    fn label(&self) -> String;

    /// Whether the workspace is shown on its output.
    fn is_visible(&self) -> bool;
}

/// The label of a workspace: its name if it has one, else its index.
pub open spec fn workspace_label(w: Workspace) -> Seq<char> {
    match w.name {
        Some(n) => n@,
        None => decimal(w.idx as nat),
    }
}

impl Workspace {
    /// The name of the workspace, else its index in decimal.
    pub fn label(&self) -> (r: String)
        ensures
            r@ == workspace_label(*self),
    {
        match &self.name {
            Some(n) => n.clone(),
            None => u64_to_string(self.idx as u64),
        }
    }

    /// Whether the workspace is shown on its output.
    pub fn is_visible(&self) -> (r: bool)
        ensures
            r == self.is_active,
    {
        self.is_active
    }
}

impl WorkspaceExt for Workspace {
    fn label(&self) -> (r: String)
        ensures
            r@ == workspace_label(*self),
    {
        Workspace::label(self)
    }

    fn is_visible(&self) -> (r: bool)
        ensures
            r == self.is_active,
    {
        Workspace::is_visible(self)
    }
}

// ── Windows and outputs ─────────────────────────────────────────────────

/// Where a window stands; pixel values that are fractional are kept as their
/// `f64` bit patterns.
#[derive(Debug, Clone, Copy, PartialEq, Eq)]
pub struct WindowLayout {
    pub pos_in_scrolling_layout: Option<(usize, usize)>,
    pub tile_size_bits: (u64, u64),
    pub window_size: (i32, i32),
    pub tile_pos_in_workspace_view_bits: Option<(u64, u64)>,
    pub window_offset_in_tile_bits: (u64, u64),
}

/// A toplevel window.
#[derive(Debug, Clone)]
pub struct Window {
    pub id: u64,
    pub title: Option<String>,
    pub app_id: Option<String>,
    pub pid: Option<i32>,
    pub workspace_id: Option<u64>,
    pub is_focused: bool,
    pub is_floating: bool,
    pub is_urgent: bool,
    pub layout: WindowLayout,
    pub focus_timestamp: Option<Timestamp>,
}

/// Extension methods of a window.
pub trait WindowExt {
    /// The application id, else the title, else `(unnamed)`.
    fn display_name(&self) -> &str;

    /// The title, else the application id, else `(unnamed)`.
    fn label(&self) -> &str;

    /// Whether the window is on the named output (a window does not say, so
    /// never).
    fn is_on_output(&self, output_name: &str) -> bool;
}

/// The first of two optional texts that is there, else `(unnamed)`.
pub open spec fn first_present(a: Option<String>, b: Option<String>) -> Seq<char> {
    match a {
        Some(x) => x@,
        None => match b {
            Some(y) => y@,
            None => "(unnamed)"@,
        },
    }
}

impl Window {
    /// The application id, else the title, else `(unnamed)`.
    pub fn display_name(&self) -> (r: &str)
        ensures
            r@ == first_present(self.app_id, self.title),
    {
        match &self.app_id {
            Some(a) => a.as_str(),
            None => match &self.title {
                Some(t) => t.as_str(),
                None => "(unnamed)",
            },
        }
    }

    /// The title, else the application id, else `(unnamed)`.
    pub fn label(&self) -> (r: &str)
        ensures
            r@ == first_present(self.title, self.app_id),
    {
        match &self.title {
            Some(t) => t.as_str(),
            None => match &self.app_id {
                Some(a) => a.as_str(),
                None => "(unnamed)",
            },
        }
    }

    /// Whether the window is on the named output: a window does not say
    /// which output it is on, so this is never known to hold.
    pub fn is_on_output(&self, output_name: &str) -> (r: bool)
        ensures
            !r,
    {
        false
    }
}

impl WindowExt for Window {
    fn display_name(&self) -> (r: &str)
        ensures
            r@ == first_present(self.app_id, self.title),
    {
        Window::display_name(self)
    }

    fn label(&self) -> (r: &str)
        ensures
            r@ == first_present(self.title, self.app_id),
    {
        Window::label(self)
    }

    fn is_on_output(&self, output_name: &str) -> (r: bool)
        ensures
            !r,
    {
        Window::is_on_output(self, output_name)
    }
}

/// An output's place in the compositor's space; the scale is kept as its
/// `f64` bit pattern.
#[derive(Debug, Clone, Copy, PartialEq, Eq, Structural)]
pub struct LogicalOutput {
    pub x: i32,
    pub y: i32,
    pub width: u32,
    pub height: u32,
    pub scale_bits: u64,
    pub transform: Transform,
}

/// An output (a monitor).
#[derive(Debug, Clone)]
pub struct Output {
    pub name: String,
    pub make: String,
    pub model: String,
    pub serial: Option<String>,
    pub physical_size: Option<(u32, u32)>,
    pub modes: Vec<Mode>,
    pub current_mode: Option<usize>,
    pub is_custom_mode: bool,
    pub vrr_supported: bool,
    pub vrr_enabled: bool,
    pub logical: Option<LogicalOutput>,
    pub max_bpc: Option<u8>,
}

/// Extension methods of an output.
pub trait OutputExt {
    /// The current mode, if the output is enabled and its index is valid.
    fn current_mode(&self) -> Option<Mode>;

    /// A human-readable name such as `"DP-1 (Dell U2720Q)"`: the connector's
    /// name, then the make and the model in parentheses where either is known.
    fn display_string(&self) -> String;
}

/// The current mode of an output.
pub open spec fn current_mode_of(o: Output) -> Option<Mode> {
    match o.current_mode {
        Some(i) => if i < o.modes@.len() {
            Some(o.modes@[i as int])
        } else {
            None
        },
        None => None,
    }
}

/// The make and the model of an output, those that are known, with a space
/// between them.
pub open spec fn make_and_model(o: Output) -> Seq<char> {
    if o.make@.len() == 0 {
        o.model@
    } else if o.model@.len() == 0 {
        o.make@
    } else {
        o.make@ + " "@ + o.model@
    }
}

/// The display text of an output: its name, then its make and model in
/// parentheses where either is known.
pub open spec fn output_label(o: Output) -> Seq<char> {
    if make_and_model(o).len() == 0 {
        o.name@
    } else {
        o.name@ + " ("@ + make_and_model(o) + ")"@
    }
}

impl Output {
    /// The current mode, if the output is enabled and its index is valid.
    pub fn current_mode(&self) -> (r: Option<Mode>)
        ensures
            r == current_mode_of(*self),
    {
        match self.current_mode {
            Some(i) => if i < self.modes.len() {
                Some(self.modes[i])
            } else {
                None
            },
            None => None,
        }
    }

    /// A human-readable name such as `"DP-1 (Dell U2720Q)"`: the connector's
    /// name, then the make and the model in parentheses where either is known.
    pub fn display_string(&self) -> (r: String)
        ensures
            r@ == output_label(*self),
    {
        let mut out: Vec<char> = Vec::new();
        extend_str(&mut out, self.name.as_str());
        let has_make = self.make.as_str().unicode_len() != 0;
        let has_model = self.model.as_str().unicode_len() != 0;
        if has_make || has_model {
            extend_str(&mut out, " (");
            extend_str(&mut out, self.make.as_str());
            if has_make && has_model {
                extend_str(&mut out, " ");
            }
            extend_str(&mut out, self.model.as_str());
            extend_str(&mut out, ")");
        }
        proof {
            assert(out@ =~= output_label(*self));
        }
        string_of(&out)
    }
}

impl OutputExt for Output {
    fn current_mode(&self) -> (r: Option<Mode>)
        ensures
            r == current_mode_of(*self),
    {
        Output::current_mode(self)
    }

    fn display_string(&self) -> (r: String)
        ensures
            r@ == output_label(*self),
    {
        Output::display_string(self)
    }
}

// ── Modelines ───────────────────────────────────────────────────────────

/// The timings of a custom modeline, in pixels and lines.
#[derive(Debug, Clone, Copy, PartialEq, Eq, Structural)]
pub struct ModelineTimings {
    pub hdisplay: u16,
    pub hsync_start: u16,
    pub hsync_end: u16,
    pub htotal: u16,
    pub vdisplay: u16,
    pub vsync_start: u16,
    pub vsync_end: u16,
    pub vtotal: u16,
}

/// "`a_name` a must be < `b_name` b".
pub open spec fn order_message(a_name: Seq<char>, a: u16, b_name: Seq<char>, b: u16) -> Seq<char> {
    a_name + " "@ + decimal(a as nat) + " must be < "@ + b_name + " "@ + decimal(b as nat)
}

/// "`name` v must be > 0".
pub open spec fn positive_message(name: Seq<char>, v: u16) -> Seq<char> {
    name + " "@ + decimal(v as nat) + " must be > 0"@
}

/// The first rule a modeline breaks, as its message, or `None`.
pub open spec fn modeline_error(m: ModelineTimings) -> Option<Seq<char>> {
    if !(m.hdisplay < m.hsync_start) {
        Some(order_message("hdisplay"@, m.hdisplay, "hsync_start"@, m.hsync_start))
    } else if !(m.hsync_start < m.hsync_end) {
        Some(order_message("hsync_start"@, m.hsync_start, "hsync_end"@, m.hsync_end))
    } else if !(m.hsync_end < m.htotal) {
        Some(order_message("hsync_end"@, m.hsync_end, "htotal"@, m.htotal))
    } else if !(0 < m.htotal) {
        Some(positive_message("htotal"@, m.htotal))
    } else if !(m.vdisplay < m.vsync_start) {
        Some(order_message("vdisplay"@, m.vdisplay, "vsync_start"@, m.vsync_start))
    } else if !(m.vsync_start < m.vsync_end) {
        Some(order_message("vsync_start"@, m.vsync_start, "vsync_end"@, m.vsync_end))
    } else if !(m.vsync_end < m.vtotal) {
        Some(order_message("vsync_end"@, m.vsync_end, "vtotal"@, m.vtotal))
    } else if !(0 < m.vtotal) {
        Some(positive_message("vtotal"@, m.vtotal))
    } else {
        None
    }
}

fn order_error(a_name: &str, a: u16, b_name: &str, b: u16) -> (r: String)
    ensures
        r@ == order_message(a_name@, a, b_name@, b),
{
    let mut out: Vec<char> = Vec::new();
    extend_str(&mut out, a_name);
    extend_str(&mut out, " ");
    crate::text::extend_chars(&mut out, &crate::text::decimal_chars(a as u64));
    extend_str(&mut out, " must be < ");
    extend_str(&mut out, b_name);
    extend_str(&mut out, " ");
    crate::text::extend_chars(&mut out, &crate::text::decimal_chars(b as u64));
    proof {
        assert(out@ =~= order_message(a_name@, a, b_name@, b));
    }
    string_of(&out)
}

fn positive_error(name: &str, v: u16) -> (r: String)
    ensures
        r@ == positive_message(name@, v),
{
    let mut out: Vec<char> = Vec::new();
    extend_str(&mut out, name);
    extend_str(&mut out, " ");
    crate::text::extend_chars(&mut out, &crate::text::decimal_chars(v as u64));
    extend_str(&mut out, " must be > 0");
    proof {
        assert(out@ =~= positive_message(name@, v));
    }
    string_of(&out)
}

impl ModelineTimings {
    /// Checks that each sync pulse starts after the active area and ends
    /// before the total, and that the totals are positive; the error names
    /// the first rule broken.
    pub fn validate(&self) -> (r: Result<(), String>)
        ensures
            match modeline_error(*self) {
                None => r is Ok,
                Some(msg) => r matches Err(e) && e@ == msg,
            },
    {
        let m = *self;
        if !(m.hdisplay < m.hsync_start) {
            return Err(order_error("hdisplay", m.hdisplay, "hsync_start", m.hsync_start));
        }
        if !(m.hsync_start < m.hsync_end) {
            return Err(order_error("hsync_start", m.hsync_start, "hsync_end", m.hsync_end));
        }
        if !(m.hsync_end < m.htotal) {
            return Err(order_error("hsync_end", m.hsync_end, "htotal", m.htotal));
        }
        if !(0 < m.htotal) {
            return Err(positive_error("htotal", m.htotal));
        }
        if !(m.vdisplay < m.vsync_start) {
            return Err(order_error("vdisplay", m.vdisplay, "vsync_start", m.vsync_start));
        }
        if !(m.vsync_start < m.vsync_end) {
            return Err(order_error("vsync_start", m.vsync_start, "vsync_end", m.vsync_end));
        }
        if !(m.vsync_end < m.vtotal) {
            return Err(order_error("vsync_end", m.vsync_end, "vtotal", m.vtotal));
        }
        if !(0 < m.vtotal) {
            return Err(positive_error("vtotal", m.vtotal));
        }
        Ok(())
    }
}

} // verus!
