//! The launcher window's decisions: scaling and layout, how a row is
//! painted, the texts it shows, what keys and notifications do, the answer
//! to each host command, and the configuration the settings form saves.

use vstd::prelude::*;

use crate::format::{decimal, push_decimal};
use crate::model::{DiagnosticLevel, ProviderDiagnostic, RecentProject};
use crate::protocol::{
    is_valid_config, is_valid_key, Config, HostResponse, Hotkey, Language, UiCommand, UiResponse,
    CONFIG_VERSION,
};
use crate::text::{chars_of, owned, push_char, push_str, string_from, trim, trim_chars};

verus! {

// ---------------------------------------------------------------------------
// Scaling, colors, layout
// ---------------------------------------------------------------------------

/// Division rounding toward zero, as integer division does.
pub open spec fn trunc_div(n: int, d: int) -> int {
    if n >= 0 {
        n / d
    } else {
        -((-n) / d)
    }
}

/// A length in 96-dpi units scaled to `dpi`, rounded to nearest.
pub open spec fn spec_scale(value: i32, dpi: u32) -> i32 {
    trunc_div(value * dpi + 48, 96) as i32
}

/// Scales a length given at 96 dpi to `dpi`.
pub fn scale(value: i32, dpi: u32) -> (r: i32)
    ensures
        r == spec_scale(value, dpi),
{
    proof {
        let v = value as int;
        let d = dpi as int;
        assert(v * d <= 0x7fff_ffff * 0xffff_ffff) by (nonlinear_arith)
            requires
                v <= 0x7fff_ffff,
                0 <= d <= 0xffff_ffff,
        ;
        assert(v * d >= -0x8000_0000 * 0xffff_ffff) by (nonlinear_arith)
            requires
                v >= -0x8000_0000,
                0 <= d <= 0xffff_ffff,
        ;
    }
    let n: i64 = value as i64 * dpi as i64 + 48;
    let q: i64 = if n >= 0 {
        n / 96
    } else {
        -((-n) / 96)
    };
    q as i32
}

/// A color from its red, green and blue parts (`0x00BBGGRR`).
pub open spec fn spec_rgb(red: u8, green: u8, blue: u8) -> u32 {
    (red + 256 * green + 65536 * blue) as u32
}

/// Packs a color.
pub fn rgb(red: u8, green: u8, blue: u8) -> (r: u32)
    ensures
        r == spec_rgb(red, green, blue),
{
    let r = red as u32 | ((green as u32) << 8) | ((blue as u32) << 16);
    assert(r == (red + 256 * green + 65536 * blue) as u32) by (bit_vector)
        requires
            r == red as u32 | ((green as u32) << 8) | ((blue as u32) << 16),
    ;
    r
}

/// The launcher's colors.
#[derive(Debug, Clone, Copy, PartialEq, Eq, Structural)]
pub struct ThemeColors {
    pub background: u32,
    pub surface: u32,
    pub text: u32,
    pub muted: u32,
    pub accent: u32,
    pub selected: u32,
    pub selected_text: u32,
}

/// The dark and light palettes.
pub fn theme_colors(dark: bool) -> (r: ThemeColors)
    ensures
        dark ==> r == (ThemeColors {
            background: spec_rgb(24, 25, 27),
            surface: spec_rgb(24, 25, 27),
            text: spec_rgb(235, 235, 235),
            muted: spec_rgb(145, 149, 154),
            accent: spec_rgb(104, 193, 211),
            selected: spec_rgb(13, 92, 108),
            selected_text: spec_rgb(255, 255, 255),
        }),
        !dark ==> r == (ThemeColors {
            background: spec_rgb(247, 247, 244),
            surface: spec_rgb(247, 247, 244),
            text: spec_rgb(32, 34, 37),
            muted: spec_rgb(103, 107, 111),
            accent: spec_rgb(31, 105, 121),
            selected: spec_rgb(17, 78, 91),
            selected_text: spec_rgb(255, 255, 255),
        }),
{
    if dark {
        ThemeColors {
            background: rgb(24, 25, 27),
            surface: rgb(24, 25, 27),
            text: rgb(235, 235, 235),
            muted: rgb(145, 149, 154),
            accent: rgb(104, 193, 211),
            selected: rgb(13, 92, 108),
            selected_text: rgb(255, 255, 255),
        }
    } else {
        ThemeColors {
            background: rgb(247, 247, 244),
            surface: rgb(247, 247, 244),
            text: rgb(32, 34, 37),
            muted: rgb(103, 107, 111),
            accent: rgb(31, 105, 121),
            selected: rgb(17, 78, 91),
            selected_text: rgb(255, 255, 255),
        }
    }
}

/// The launcher's width at 96 dpi.
pub const LAUNCHER_WIDTH: i32 = 760;
/// The header's height at 96 dpi.
pub const LAUNCHER_HEADER_HEIGHT: i32 = 36;
/// A row's height at 96 dpi.
pub const LAUNCHER_ROW_HEIGHT: i32 = 24;
/// The rows shown without scrolling.
pub const LAUNCHER_VISIBLE_ROWS: i32 = 12;
/// The frame's height at 96 dpi.
pub const LAUNCHER_NONCLIENT_HEIGHT: i32 = 4;

/// The launcher's height at 96 dpi: header, visible rows and frame.
pub fn launcher_height() -> (r: i32)
    ensures
        r == LAUNCHER_HEADER_HEIGHT + LAUNCHER_ROW_HEIGHT * LAUNCHER_VISIBLE_ROWS
            + LAUNCHER_NONCLIENT_HEIGHT,
{
    LAUNCHER_HEADER_HEIGHT + LAUNCHER_ROW_HEIGHT * LAUNCHER_VISIBLE_ROWS + LAUNCHER_NONCLIENT_HEIGHT
}

/// A window's position and size.
#[derive(Debug, Clone, Copy, PartialEq, Eq, Structural)]
pub struct Placement {
    pub x: i32,
    pub y: i32,
    pub width: i32,
    pub height: i32,
}

/// Where the launcher's controls go.
#[derive(Debug, Clone, Copy, PartialEq, Eq, Structural)]
pub struct LauncherLayout {
    pub prompt: Placement,
    pub edit: Placement,
    pub hint: Placement,
    pub status: Placement,
    pub list: Placement,
}

pub open spec fn fits_i32(x: int) -> bool {
    i32::MIN <= x <= i32::MAX
}

/// Whether laying out a `width` by `height` launcher at `dpi` stays within
/// 32-bit coordinates at every step.
pub open spec fn launcher_layout_fits(width: i32, height: i32, dpi: u32) -> bool {
    let p = spec_scale(10, dpi);
    let h = spec_scale(LAUNCHER_HEADER_HEIGHT, dpi);
    let pw = spec_scale(84, dpi);
    let cw = spec_scale(58, dpi);
    let s8 = spec_scale(8, dpi);
    &&& fits_i32(p + pw)
    &&& fits_i32(2 * p)
    &&& fits_i32(width - 2 * p)
    &&& fits_i32(width - 2 * p - pw)
    &&& fits_i32(width - 2 * p - pw - cw)
    &&& fits_i32(h - s8)
    &&& fits_i32(width - p)
    &&& fits_i32(width - p - cw)
    &&& fits_i32(height - h)
}

/// The launcher's controls for a `width` by `height` client area: the
/// prompt and the counter frame the filter box in the header, the list fills
/// the rest; the hint lies over the filter box.
pub fn layout_launcher(width: i32, height: i32, dpi: u32) -> (r: LauncherLayout)
    requires
        launcher_layout_fits(width, height, dpi),
    ensures
        ({
            let p = spec_scale(10, dpi);
            let h = spec_scale(LAUNCHER_HEADER_HEIGHT, dpi);
            let pw = spec_scale(84, dpi);
            let cw = spec_scale(58, dpi);
            let field = Placement {
                x: (p + pw) as i32,
                y: spec_scale(4, dpi),
                width: (width - 2 * p - pw - cw) as i32,
                height: (h - spec_scale(8, dpi)) as i32,
            };
            &&& r.prompt == (Placement { x: p, y: 0, width: pw, height: h })
            &&& r.edit == field
            &&& r.hint == field
            &&& r.status == (Placement { x: (width - p - cw) as i32, y: 0, width: cw, height: h })
            &&& r.list == (Placement { x: 0, y: h, width, height: (height - h) as i32 })
        }),
{
    let padding = scale(10, dpi);
    let header = scale(LAUNCHER_HEADER_HEIGHT, dpi);
    let prompt_width = scale(84, dpi);
    let counter_width = scale(58, dpi);
    let field = Placement {
        x: padding + prompt_width,
        y: scale(4, dpi),
        width: width - 2 * padding - prompt_width - counter_width,
        height: header - scale(8, dpi),
    };
    LauncherLayout {
        prompt: Placement { x: padding, y: 0, width: prompt_width, height: header },
        edit: field,
        hint: field,
        status: Placement { x: width - padding - counter_width, y: 0, width: counter_width, height: header },
        list: Placement { x: 0, y: header, width, height: height - header },
    }
}

/// The settings controls at 96 dpi, in order: language label, language,
/// hotkey label, hotkey, autostart, VS Code label, VS Code path, save, cancel.
pub open spec fn settings_slots() -> Seq<(i32, i32, i32, i32)> {
    seq![
        (20i32, 22i32, 145i32, 24i32),
        (175i32, 18i32, 350i32, 160i32),
        (20i32, 72i32, 145i32, 24i32),
        (175i32, 68i32, 350i32, 28i32),
        (175i32, 118i32, 350i32, 28i32),
        (20i32, 172i32, 145i32, 24i32),
        (175i32, 168i32, 350i32, 28i32),
        (335i32, 235i32, 90i32, 30i32),
        (435i32, 235i32, 90i32, 30i32),
    ]
}

/// The settings controls placed at `dpi`, in the order of [`settings_slots`].
pub fn layout_settings(dpi: u32) -> (r: Vec<Placement>)
    ensures
        r@.len() == settings_slots().len(),
        forall|i: int|
            0 <= i < r@.len() ==> #[trigger] r@[i] == (Placement {
                x: spec_scale(settings_slots()[i].0, dpi),
                y: spec_scale(settings_slots()[i].1, dpi),
                width: spec_scale(settings_slots()[i].2, dpi),
                height: spec_scale(settings_slots()[i].3, dpi),
            }),
{
    let slots: [(i32, i32, i32, i32); 9] = [
        (20, 22, 145, 24),
        (175, 18, 350, 160),
        (20, 72, 145, 24),
        (175, 68, 350, 28),
        (175, 118, 350, 28),
        (20, 172, 145, 24),
        (175, 168, 350, 28),
        (335, 235, 90, 30),
        (435, 235, 90, 30),
    ];
    assert(slots@ =~= settings_slots());
    let mut r: Vec<Placement> = Vec::new();
    let mut i: usize = 0;
    while i < 9
        invariant
            i <= 9,
            slots@ == settings_slots(),
            r@.len() == i,
            forall|j: int|
                0 <= j < i ==> #[trigger] r@[j] == (Placement {
                    x: spec_scale(settings_slots()[j].0, dpi),
                    y: spec_scale(settings_slots()[j].1, dpi),
                    width: spec_scale(settings_slots()[j].2, dpi),
                    height: spec_scale(settings_slots()[j].3, dpi),
                }),
        decreases 9 - i,
    {
        let (x, y, w, h) = slots[i];
        r.push(Placement { x: scale(x, dpi), y: scale(y, dpi), width: scale(w, dpi), height: scale(h, dpi) });
        i = i + 1;
    }
    r
}

// ---------------------------------------------------------------------------
// Painting a row
// ---------------------------------------------------------------------------

/// A rectangle in client coordinates.
#[derive(Debug, Clone, Copy, PartialEq, Eq, Structural)]
pub struct Rect {
    pub left: i32,
    pub top: i32,
    pub right: i32,
    pub bottom: i32,
}

/// A text drawn in a color inside a rectangle (one line, ellipsized).
#[derive(Debug, Clone, PartialEq, Eq)]
pub struct TextRun {
    pub text: String,
    pub color: u32,
    pub rect: Rect,
}

/// How a list row is painted: its background, then its texts.
#[derive(Debug, Clone, PartialEq, Eq)]
pub struct RowPaint {
    pub background: u32,
    pub runs: Vec<TextRun>,
}

/// Whether the row's columns stay within 32-bit coordinates.
pub open spec fn row_fits(item: Rect, dpi: u32) -> bool {
    let p = spec_scale(10, dpi);
    let tag = spec_scale(78, dpi);
    let name = spec_scale(210, dpi);
    &&& fits_i32(item.left + p)
    &&& fits_i32(item.right - p)
    &&& fits_i32(item.left + p + tag)
    &&& fits_i32(item.left + p + tag + name)
    &&& fits_i32(item.left + p + tag + name + spec_scale(8, dpi))
}

/// `run` draws `text` in `color` inside `rect`.
pub open spec fn is_run(run: TextRun, text: Seq<char>, color: u32, rect: Rect) -> bool {
    run.text@ == text && run.color == color && run.rect == rect
}

/// Whether list row `item` is the selected one (`current` is the list's
/// selection, negative for none).
pub fn row_selected(current: isize, item: u32) -> (r: bool)
    ensures
        r == (current >= 0 && current as u32 == item),
{
    current >= 0 && current as u32 == item
}

/// How row `item` is painted at `dpi`: on the selection color when
/// selected; a project shows the `[VSCode]` tag, its name and its detail in
/// three columns; a row without a project shows `empty` in the muted color.
pub fn row_paint(
    item: Rect,
    dpi: u32,
    selected: bool,
    theme: &ThemeColors,
    project: Option<&RecentProject>,
    empty: &str,
) -> (r: RowPaint)
    requires
        row_fits(item, dpi),
    ensures
        r.background == if selected {
            theme.selected
        } else {
            theme.surface
        },
        ({
            let p = spec_scale(10, dpi);
            let tag_right = item.left + p + spec_scale(78, dpi);
            let name_right = tag_right + spec_scale(210, dpi);
            let text_color = if selected {
                theme.selected_text
            } else {
                theme.text
            };
            match project {
                None => r.runs@.len() == 1 && is_run(
                    r.runs@[0],
                    empty@,
                    theme.muted,
                    Rect { left: (item.left + p) as i32, top: item.top, right: (item.right - p) as i32, bottom: item.bottom },
                ),
                Some(project) => {
                    &&& r.runs@.len() == 3
                    &&& is_run(
                        r.runs@[0],
                        "[VSCode]"@,
                        if selected {
                            text_color
                        } else {
                            theme.accent
                        },
                        Rect { left: (item.left + p) as i32, top: item.top, right: tag_right as i32, bottom: item.bottom },
                    )
                    &&& is_run(
                        r.runs@[1],
                        project.name@,
                        text_color,
                        Rect { left: tag_right as i32, top: item.top, right: name_right as i32, bottom: item.bottom },
                    )
                    &&& is_run(
                        r.runs@[2],
                        project.detail@,
                        if selected {
                            text_color
                        } else {
                            theme.muted
                        },
                        Rect {
                            left: (name_right + spec_scale(8, dpi)) as i32,
                            top: item.top,
                            right: (item.right - p) as i32,
                            bottom: item.bottom,
                        },
                    )
                },
            }
        }),
{
    let background = if selected {
        theme.selected
    } else {
        theme.surface
    };
    let text_color = if selected {
        theme.selected_text
    } else {
        theme.text
    };
    let muted = if selected {
        text_color
    } else {
        theme.muted
    };
    let tag = if selected {
        text_color
    } else {
        theme.accent
    };
    let padding = scale(10, dpi);
    let tag_width = scale(78, dpi);
    let name_width = scale(210, dpi);
    let mut runs: Vec<TextRun> = Vec::new();
    match project {
        None => {
            runs.push(
                TextRun {
                    text: owned(empty),
                    color: theme.muted,
                    rect: Rect {
                        left: item.left + padding,
                        top: item.top,
                        right: item.right - padding,
                        bottom: item.bottom,
                    },
                },
            );
        },
        Some(project) => {
            let tag_rect = Rect {
                left: item.left + padding,
                top: item.top,
                right: item.left + padding + tag_width,
                bottom: item.bottom,
            };
            let name_rect = Rect {
                left: tag_rect.right,
                top: item.top,
                right: tag_rect.right + name_width,
                bottom: item.bottom,
            };
            let path_rect = Rect {
                left: name_rect.right + scale(8, dpi),
                top: item.top,
                right: item.right - padding,
                bottom: item.bottom,
            };
            runs.push(TextRun { text: owned("[VSCode]"), color: tag, rect: tag_rect });
            runs.push(TextRun { text: project.name.clone(), color: text_color, rect: name_rect });
            runs.push(TextRun { text: project.detail.clone(), color: muted, rect: path_rect });
        },
    }
    RowPaint { background, runs }
}

// ---------------------------------------------------------------------------
// Texts
// ---------------------------------------------------------------------------

/// A list row as text: `[VSCode] <name>  <detail>`.
pub fn row_text(project: &RecentProject) -> (r: String)
    ensures
        r@ == "[VSCode] "@ + project.name@ + "  "@ + project.detail@,
{
    let mut r = owned("[VSCode] ");
    push_str(&mut r, project.name.as_str());
    push_str(&mut r, "  ");
    push_str(&mut r, project.detail.as_str());
    r
}

/// The name of a diagnostic level.
pub open spec fn level_name(level: DiagnosticLevel) -> Seq<char> {
    match level {
        DiagnosticLevel::Info => "Info"@,
        DiagnosticLevel::Warning => "Warning"@,
        DiagnosticLevel::Error => "Error"@,
    }
}

/// A diagnostic as one line: `<level> <code>: <message>`.
pub fn diagnostic_line(d: &ProviderDiagnostic) -> (r: String)
    ensures
        r@ == level_name(d.level) + " "@ + d.code@ + ": "@ + d.message@,
{
    let mut r = owned(
        match d.level {
            DiagnosticLevel::Info => "Info",
            DiagnosticLevel::Warning => "Warning",
            DiagnosticLevel::Error => "Error",
        },
    );
    push_str(&mut r, " ");
    push_str(&mut r, d.code.as_str());
    push_str(&mut r, ": ");
    push_str(&mut r, d.message.as_str());
    r
}

/// The index of the first line that starts with `Error`.
pub open spec fn first_error(lines: Seq<String>, n: int) -> Option<int>
    decreases n,
{
    if n <= 0 {
        None
    } else {
        match first_error(lines, n - 1) {
            Some(i) => Some(i),
            None => if crate::text::is_prefix("Error"@, lines[n - 1]@) {
                Some(n - 1)
            } else {
                None
            },
        }
    }
}

/// What an empty list says: the first error diagnostic, or that nothing was found.
pub fn empty_message(diagnostics: &[String], chinese: bool) -> (r: String)
    ensures
        match first_error(diagnostics@, diagnostics@.len() as int) {
            Some(i) => r@ == diagnostics@[i]@,
            None => r@ == if chinese {
                "未找到最近项目"@
            } else {
                "No recent projects found"@
            },
        },
{
    let prefix = chars_of("Error");
    let mut i: usize = 0;
    while i < diagnostics.len()
        invariant
            i <= diagnostics@.len(),
            prefix@ == "Error"@,
            first_error(diagnostics@, i as int) is None,
        decreases diagnostics.len() - i,
    {
        if crate::text::starts_with(&chars_of(diagnostics[i].as_str()), &prefix) {
            assert(first_error(diagnostics@, i + 1) == Some(i as int));
            proof {
                lemma_first_error_stays(diagnostics@, i + 1, diagnostics@.len() as int);
            }
            return diagnostics[i].clone();
        }
        i = i + 1;
    }
    if chinese {
        owned("未找到最近项目")
    } else {
        owned("No recent projects found")
    }
}

proof fn lemma_first_error_stays(lines: Seq<String>, a: int, b: int)
    requires
        0 <= a <= b,
        first_error(lines, a) is Some,
    ensures
        first_error(lines, b) == first_error(lines, a),
    decreases b - a,
{
    if a < b {
        lemma_first_error_stays(lines, a, b - 1);
    }
}

/// The counter beside the filter box: `<position>/<total>`, position 0 when nothing is selected.
pub fn counter_text(total: usize, selected: Option<usize>) -> (r: String)
    requires
        selected matches Some(i) ==> i < usize::MAX,
    ensures
        r@ == decimal(
            match selected {
                Some(i) => i + 1,
                None => 0,
            } as nat,
        ) + "/"@ + decimal(total as nat),
{
    let current: u64 = match selected {
        Some(i) => i as u64 + 1,
        None => 0,
    };
    let mut r = String::new();
    push_decimal(&mut r, current);
    push_str(&mut r, "/");
    push_decimal(&mut r, total as u64);
    r
}

/// The diagnostics shown for a `Diagnostics` command: the host's text, then
/// the provider's lines under a heading when there are any.
pub open spec fn joined_lines(lines: Seq<String>) -> Seq<char>
    decreases lines.len(),
{
    if lines.len() == 0 {
        Seq::empty()
    } else if lines.len() == 1 {
        lines[0]@
    } else {
        joined_lines(lines.drop_last()) + "\n"@ + lines.last()@
    }
}

/// The diagnostics text: the host's, followed by the provider's lines.
pub fn diagnostics_details(host: &str, provider: &[String]) -> (r: String)
    ensures
        r@ == if provider@.len() == 0 {
            host@
        } else {
            host@ + "\n\nVS Code provider:\n"@ + joined_lines(provider@)
        },
{
    let mut r = owned(host);
    if provider.len() == 0 {
        return r;
    }
    push_str(&mut r, "\n\nVS Code provider:\n");
    let ghost start = r@;
    let mut i: usize = 0;
    while i < provider.len()
        invariant
            i <= provider@.len(),
            r@ == start + joined_lines(provider@.subrange(0, i as int)),
        decreases provider.len() - i,
    {
        let ghost t = provider@.subrange(0, i + 1);
        assert(t.drop_last() =~= provider@.subrange(0, i as int));
        if i > 0 {
            push_str(&mut r, "\n");
        } else {
            assert(joined_lines(provider@.subrange(0, 0)) =~= Seq::<char>::empty());
        }
        push_str(&mut r, provider[i].as_str());
        i = i + 1;
    }
    assert(provider@.subrange(0, provider@.len() as int) =~= provider@);
    r
}

// ---------------------------------------------------------------------------
// Commands, keys and notifications
// ---------------------------------------------------------------------------

/// The UI's answer to a host command once it is handled.
pub fn pipe_response(command: &UiCommand) -> (r: UiResponse)
    ensures
        r == match *command {
            UiCommand::Show => UiResponse::Ready,
            UiCommand::Hide => UiResponse::Hidden,
            UiCommand::Settings(_) => UiResponse::Shown,
            UiCommand::Diagnostics(_) => UiResponse::Shown,
            UiCommand::Quit => UiResponse::Quitting,
        },
{
    match command {
        UiCommand::Show => UiResponse::Ready,
        UiCommand::Hide => UiResponse::Hidden,
        UiCommand::Settings(_) => UiResponse::Shown,
        UiCommand::Diagnostics(_) => UiResponse::Shown,
        UiCommand::Quit => UiResponse::Quitting,
    }
}

/// Virtual-key codes the launcher reacts to.
pub const VK_RETURN: u16 = 0x0D;
pub const VK_SHIFT: u16 = 0x10;
pub const VK_CONTROL: u16 = 0x11;
pub const VK_MENU: u16 = 0x12;
pub const VK_ESCAPE: u16 = 0x1B;
pub const VK_UP: u16 = 0x26;
pub const VK_DOWN: u16 = 0x28;
pub const VK_LWIN: u16 = 0x5B;
pub const VK_RWIN: u16 = 0x5C;
pub const VK_F1: u16 = 0x70;
pub const VK_F24: u16 = 0x87;

/// What a key press does.
#[derive(Debug, Clone, Copy, PartialEq, Eq, Structural)]
pub enum KeyAction {
    /// Close the settings window.
    CloseSettings,
    /// Record the key as the new hotkey.
    CaptureHotkey,
    /// Hide the launcher.
    HideLauncher,
    /// Select the next row.
    MoveDown,
    /// Select the previous row.
    MoveUp,
    /// Open the selected project.
    OpenSelected,
    /// The key is not the launcher's.
    Unhandled,
}

/// The reaction to `key`: in the settings window, Escape closes it and keys
/// typed in the hotkey field are captured; in the launcher, Escape hides it,
/// the arrows move the selection and Enter opens the selection.
pub fn key_action(settings_visible: bool, hotkey_focused: bool, launcher_visible: bool, key: u16) -> (r:
    KeyAction)
    ensures
        r == if settings_visible {
            if key == VK_ESCAPE {
                KeyAction::CloseSettings
            } else if hotkey_focused {
                KeyAction::CaptureHotkey
            } else {
                KeyAction::Unhandled
            }
        } else if !launcher_visible {
            KeyAction::Unhandled
        } else if key == VK_ESCAPE {
            KeyAction::HideLauncher
        } else if key == VK_DOWN {
            KeyAction::MoveDown
        } else if key == VK_UP {
            KeyAction::MoveUp
        } else if key == VK_RETURN {
            KeyAction::OpenSelected
        } else {
            KeyAction::Unhandled
        },
{
    if settings_visible {
        if key == VK_ESCAPE {
            KeyAction::CloseSettings
        } else if hotkey_focused {
            KeyAction::CaptureHotkey
        } else {
            KeyAction::Unhandled
        }
    } else if !launcher_visible {
        KeyAction::Unhandled
    } else if key == VK_ESCAPE {
        KeyAction::HideLauncher
    } else if key == VK_DOWN {
        KeyAction::MoveDown
    } else if key == VK_UP {
        KeyAction::MoveUp
    } else if key == VK_RETURN {
        KeyAction::OpenSelected
    } else {
        KeyAction::Unhandled
    }
}

/// The hotkey name of a virtual key: a letter or digit as itself, a function
/// key as `F<n>`; none for other keys.
pub open spec fn key_name(key: u16) -> Option<Seq<char>> {
    if (65 <= key <= 90) || (48 <= key <= 57) {
        Some(seq![key as char])
    } else if VK_F1 <= key <= VK_F24 {
        Some(seq!['F'] + decimal((key - VK_F1 + 1) as nat))
    } else {
        None
    }
}

/// Whether a key is a modifier.
pub open spec fn is_modifier_key(key: u16) -> bool {
    key == VK_CONTROL || key == VK_MENU || key == VK_SHIFT || key == VK_LWIN || key == VK_RWIN
}

/// The hotkey captured from `key` with the modifiers held: none for a
/// modifier alone, an unnamed key, or a hotkey the configuration would
/// refuse; otherwise the new hotkey.
pub fn capture_hotkey(key: u16, ctrl: bool, alt: bool, shift: bool, win: bool, config: &Config) -> (r: Option<
    Hotkey,
>)
    ensures
        match r {
            Some(h) => !is_modifier_key(key) && key_name(key) == Some(h.key@) && h.ctrl == ctrl
                && h.alt == alt && h.shift == shift && h.win == win && is_valid_config(
                Config { hotkey: h, ..*config },
            ),
            None => is_modifier_key(key) || match key_name(key) {
                None => true,
                Some(name) => !(config.version == CONFIG_VERSION && is_valid_key(trim(name)) && (
                ctrl || alt || shift || win)),
            },
        },
{
    if key == VK_CONTROL || key == VK_MENU || key == VK_SHIFT || key == VK_LWIN || key == VK_RWIN {
        return None;
    }
    let name = if (65 <= key && key <= 90) || (48 <= key && key <= 57) {
        let c = key as u8 as char;
        let mut s = String::new();
        push_char(&mut s, c);
        assert(s@ =~= seq![key as char]);
        s
    } else if VK_F1 <= key && key <= VK_F24 {
        let mut s = owned("F");
        push_decimal(&mut s, (key - VK_F1 + 1) as u64);
        proof {
            reveal_strlit("F");
            assert("F"@ =~= seq!['F']);
        }
        s
    } else {
        return None;
    };
    let hotkey = Hotkey { ctrl, alt, shift, win, key: name };
    let mut candidate = config.copied();
    candidate.hotkey = hotkey.copied();
    match candidate.validate() {
        Ok(()) => Some(hotkey),
        Err(_) => None,
    }
}

/// Control identifiers and notifications of the launcher.
pub const EDIT_ID: usize = 10;
pub const LIST_ID: usize = 11;
pub const HINT_ID: usize = 13;
pub const EN_CHANGE: u32 = 0x0300;
pub const LBN_SELCHANGE: u32 = 1;
pub const LBN_DBLCLK: u32 = 2;

/// What a control notification does.
#[derive(Debug, Clone, Copy, PartialEq, Eq, Structural)]
pub enum ControlAction {
    /// The filter changed: refresh the list.
    Refresh,
    /// The hint was clicked: focus the filter box.
    FocusFilter,
    /// The list selection changed: follow it.
    FollowSelection,
    /// A row was double-clicked: select it and open it.
    OpenRow,
    /// Nothing.
    Ignore,
}

/// The reaction to a `WM_COMMAND` whose `wparam` names the control (low
/// word) and the notification (high word).
pub fn control_action(wparam: usize) -> (r: ControlAction)
    ensures
        ({
            let control = wparam & 0xffffusize;
            let notification = ((wparam >> 16usize) & 0xffffusize) as u32;
            r == if control == EDIT_ID && notification == EN_CHANGE {
                ControlAction::Refresh
            } else if control == HINT_ID {
                ControlAction::FocusFilter
            } else if control == LIST_ID && notification == LBN_SELCHANGE {
                ControlAction::FollowSelection
            } else if control == LIST_ID && notification == LBN_DBLCLK {
                ControlAction::OpenRow
            } else {
                ControlAction::Ignore
            }
        }),
{
    let control = wparam & 0xffff;
    let notification = ((wparam >> 16) & 0xffff) as u32;
    if control == EDIT_ID && notification == EN_CHANGE {
        ControlAction::Refresh
    } else if control == HINT_ID {
        ControlAction::FocusFilter
    } else if control == LIST_ID && notification == LBN_SELCHANGE {
        ControlAction::FollowSelection
    } else if control == LIST_ID && notification == LBN_DBLCLK {
        ControlAction::OpenRow
    } else {
        ControlAction::Ignore
    }
}

/// Whether the launcher had focus, and whether it hides, when it is
/// deactivated (`inactive`) or activated: losing activation hides a
/// launcher that had focus unless the settings window is open.
pub fn on_activate(inactive: bool, had_focus: bool, settings_visible: bool) -> (r: (bool, bool))
    ensures
        r == if inactive {
            (had_focus, had_focus && !settings_visible)
        } else {
            (true, false)
        },
{
    if inactive {
        (had_focus, had_focus && !settings_visible)
    } else {
        (true, false)
    }
}

/// The periodic focus check of a visible launcher: owning the foreground
/// records focus; losing it after having had it hides the launcher.
pub fn on_focus_check(visible: bool, owns_foreground: bool, had_focus: bool) -> (r: (bool, bool))
    ensures
        r == if !visible {
            (had_focus, false)
        } else if owns_foreground {
            (true, false)
        } else {
            (had_focus, had_focus)
        },
{
    if !visible {
        (had_focus, false)
    } else if owns_foreground {
        (true, false)
    } else {
        (had_focus, had_focus)
    }
}

/// How long a hidden launcher waits before it exits, in seconds: 15 minutes.
pub const IDLE_EXIT_AFTER_SECS: u64 = 900;

/// Whether the idle timer ends the launcher process: only a launcher that
/// has stayed hidden (`hidden_for_secs`; `None` while it is shown) for at
/// least [`IDLE_EXIT_AFTER_SECS`] exits.
pub fn idle_exit_due(hidden_for_secs: Option<u64>) -> (r: bool)
    ensures
        r == (hidden_for_secs matches Some(s) && s >= IDLE_EXIT_AFTER_SECS),
{
    match hidden_for_secs {
        Some(s) => s >= IDLE_EXIT_AFTER_SECS,
        None => false,
    }
}

/// The row under the pointer from a list hit test: the low word when the
/// high word says the point is inside a row.
pub fn hit_row(hit: u32) -> (r: Option<usize>)
    ensures
        r == if hit >> 16u32 == 0 {
            Some((hit & 0xffffu32) as usize)
        } else {
            None::<usize>
        },
{
    if hit >> 16 == 0 {
        Some((hit & 0xffff) as usize)
    } else {
        None
    }
}

/// The labels of the settings window.
#[derive(Debug, Clone, Copy, PartialEq, Eq)]
pub struct SettingsTexts {
    pub title: &'static str,
    pub language: &'static str,
    pub hotkey: &'static str,
    pub vscode_path: &'static str,
    pub autostart: &'static str,
    pub save: &'static str,
    pub cancel: &'static str,
}

/// The settings window's labels in Chinese or English.
pub fn settings_texts(chinese: bool) -> (r: SettingsTexts)
    ensures
        chinese ==> r == (SettingsTexts {
            title: "Recentry 设置",
            language: "语言",
            hotkey: "快捷键",
            vscode_path: "VS Code 路径",
            autostart: "登录时启动 Recentry",
            save: "保存",
            cancel: "取消",
        }),
        !chinese ==> r == (SettingsTexts {
            title: "Recentry Settings",
            language: "Language",
            hotkey: "Hotkey",
            vscode_path: "VS Code path",
            autostart: "Start Recentry when I sign in",
            save: "Save",
            cancel: "Cancel",
        }),
{
    if chinese {
        SettingsTexts {
            title: "Recentry 设置",
            language: "语言",
            hotkey: "快捷键",
            vscode_path: "VS Code 路径",
            autostart: "登录时启动 Recentry",
            save: "保存",
            cancel: "取消",
        }
    } else {
        SettingsTexts {
            title: "Recentry Settings",
            language: "Language",
            hotkey: "Hotkey",
            vscode_path: "VS Code path",
            autostart: "Start Recentry when I sign in",
            save: "Save",
            cancel: "Cancel",
        }
    }
}

/// The entries of the language box, in the order of [`language_index`].
pub fn language_choices() -> (r: [&'static str; 3])
    ensures
        r@ == seq!["跟随系统 / System", "简体中文", "English"],
{
    ["跟随系统 / System", "简体中文", "English"]
}

/// The hint shown in the empty filter box.
pub fn filter_hint(chinese: bool) -> (r: &'static str)
    ensures
        r == if chinese {
            "输入筛选"
        } else {
            "Type to filter"
        },
{
    if chinese {
        "输入筛选"
    } else {
        "Type to filter"
    }
}

// ---------------------------------------------------------------------------
// Settings form
// ---------------------------------------------------------------------------

/// The position of a language in the language box.
pub fn language_index(language: Language) -> (r: usize)
    ensures
        r == match language {
            Language::System => 0usize,
            Language::ZhCn => 1usize,
            Language::En => 2usize,
        },
{
    match language {
        Language::System => 0,
        Language::ZhCn => 1,
        Language::En => 2,
    }
}

/// The language at a position of the language box; the system language for anything else.
pub fn language_at(index: isize) -> (r: Language)
    ensures
        r == if index == 1 {
            Language::ZhCn
        } else if index == 2 {
            Language::En
        } else {
            Language::System
        },
{
    if index == 1 {
        Language::ZhCn
    } else if index == 2 {
        Language::En
    } else {
        Language::System
    }
}

/// The configuration the settings form saves: the chosen language, hotkey
/// and autostart, the trimmed VS Code path (none when blank), and the first
/// run completed.
pub fn settings_config(base: &Config, language: Language, hotkey: Hotkey, autostart: bool, vscode_path: &str) -> (r:
    Config)
    ensures
        r == (Config {
            language,
            hotkey,
            autostart,
            vscode_path_override: r.vscode_path_override,
            first_run_completed: true,
            ..*base
        }),
        match r.vscode_path_override {
            Some(p) => trim(vscode_path@).len() > 0 && p@ == trim(vscode_path@),
            None => trim(vscode_path@).len() == 0,
        },
{
    let trimmed = trim_chars(&chars_of(vscode_path));
    let vscode_path_override = if trimmed.len() > 0 {
        Some(string_from(&trimmed))
    } else {
        None
    };
    Config {
        version: base.version,
        language,
        hotkey,
        autostart,
        vscode_path_override,
        first_run_completed: true,
    }
}

/// How saving settings ended.
#[derive(Debug, Clone, PartialEq, Eq)]
pub enum SaveOutcome {
    /// Saved: close the window.
    Saved,
    /// Show this error.
    Failed(String),
}

/// The name of a host reply.
pub open spec fn response_name(response: HostResponse) -> Seq<char> {
    match response {
        HostResponse::Pong => "Pong"@,
        HostResponse::Accepted => "Accepted"@,
        HostResponse::Saved => "Saved"@,
        HostResponse::Error(_) => "Error"@,
        HostResponse::Bye => "Bye"@,
    }
}

/// The outcome of asking the host to save: `Saved`, the host's error, an
/// unexpected reply, or the transport's error.
pub fn save_outcome(reply: Result<HostResponse, String>) -> (r: SaveOutcome)
    ensures
        match reply {
            Ok(HostResponse::Saved) => r == SaveOutcome::Saved,
            Ok(HostResponse::Error(e)) => r == SaveOutcome::Failed(e),
            Ok(other) => r matches SaveOutcome::Failed(m) && m@ == "unexpected host response: "@
                + response_name(other),
            Err(e) => r == SaveOutcome::Failed(e),
        },
{
    match reply {
        Ok(HostResponse::Saved) => SaveOutcome::Saved,
        Ok(HostResponse::Error(e)) => SaveOutcome::Failed(e),
        Ok(other) => {
            let mut m = owned("unexpected host response: ");
            push_str(
                &mut m,
                match other {
                    HostResponse::Pong => "Pong",
                    HostResponse::Accepted => "Accepted",
                    HostResponse::Saved => "Saved",
                    HostResponse::Error(_) => "Error",
                    HostResponse::Bye => "Bye",
                },
            );
            SaveOutcome::Failed(m)
        },
        Err(e) => SaveOutcome::Failed(e),
    }
}

} // verus!
