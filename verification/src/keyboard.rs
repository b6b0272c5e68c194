//! Configurable keyboard shortcut system.
//!
//! A [`KeyboardShortcutMap`] maps key + modifier combinations to commands.
//! It is generic over the command type `C`, which it only stores and hands
//! back: matching looks at the key name and the modifiers alone.
//! [`KeyboardPresets`] builds the ready-made profiles (default, trading,
//! minimal) over [`PresetCommand`]s.

use vstd::prelude::*;
use vstd::string::StringExecFns;
use crate::engine::DrawingTool;
use crate::seq_search::{
    first_where, is_first_where, lemma_first_where_none, lemma_first_where_push, lemma_first_where_unique,
};

verus! {

/// Modifier keys state for shortcut matching.
#[derive(Debug, Clone, Copy, PartialEq, Eq, Hash, Structural)]
pub struct Modifiers {
    pub shift: bool,
    pub ctrl: bool,
    pub alt: bool,
    pub meta: bool,
}

impl Modifiers {
    /// No modifier held.
    pub fn none() -> (r: Self)
        ensures
            r == (Modifiers { shift: false, ctrl: false, alt: false, meta: false }),
    {
        Modifiers { shift: false, ctrl: false, alt: false, meta: false }
    }

    pub fn new(shift: bool, ctrl: bool, alt: bool, meta: bool) -> (r: Self)
        ensures
            r == (Modifiers { shift, ctrl, alt, meta }),
    {
        Modifiers { shift, ctrl, alt, meta }
    }
}

/// A keyboard shortcut: key + modifiers -> command.
#[derive(Debug, Clone)]
pub struct KeyboardShortcut<C> {
    /// Key name (e.g. `"Escape"`, `"Delete"`, `"1"`, `"ArrowLeft"`).
    pub key: String,
    /// Required modifiers.
    pub modifiers: Modifiers,
    /// Command to emit when this shortcut is triggered.
    pub command: C,
    /// Description for documentation / UI.
    pub description: String,
}

/// Whether `s` is triggered by the key named `key` with modifiers `m`.
pub open spec fn shortcut_matches<C>(s: KeyboardShortcut<C>, key: Seq<char>, m: Modifiers) -> bool {
    s.key@ == key && s.modifiers == m
}

/// The test that accepts the shortcuts that `key` + `m` triggers.
pub open spec fn triggered_by<C>(key: Seq<char>, m: Modifiers) -> spec_fn(KeyboardShortcut<C>) -> bool {
    |s: KeyboardShortcut<C>| shortcut_matches(s, key, m)
}

/// The position of the first shortcut in `list` that `key` + `m` triggers, if any.
pub open spec fn first_match<C>(list: Seq<KeyboardShortcut<C>>, key: Seq<char>, m: Modifiers) -> Option<int> {
    first_where(list, triggered_by::<C>(key, m))
}

/// Maps keyboard shortcuts to commands.
pub struct KeyboardShortcutMap<C> {
    shortcuts: Vec<KeyboardShortcut<C>>,
}

impl<C> View for KeyboardShortcutMap<C> {
    type V = Seq<KeyboardShortcut<C>>;

    /// The registered shortcuts, in registration order.
    closed spec fn view(&self) -> Seq<KeyboardShortcut<C>> {
        self.shortcuts@
    }
}

impl<C> KeyboardShortcutMap<C> {
    pub fn new() -> (r: Self)
        ensures
            r@ == Seq::<KeyboardShortcut<C>>::empty(),
    {
        KeyboardShortcutMap { shortcuts: Vec::new() }
    }

    /// Register a shortcut. Duplicate key + modifiers are allowed; the first
    /// registered one wins.
    pub fn register(&mut self, shortcut: KeyboardShortcut<C>)
        ensures
            final(self)@ == old(self)@.push(shortcut),
    {
        self.shortcuts.push(shortcut);
    }

    /// Remove all shortcuts.
    pub fn clear(&mut self)
        ensures
            final(self)@ == Seq::<KeyboardShortcut<C>>::empty(),
    {
        self.shortcuts.clear();
    }

    /// Handle a keyboard event: the command of the first matching shortcut.
    pub fn handle_event(&self, key: &str, modifiers: &Modifiers) -> (r: Option<&C>)
        ensures
            r == (match first_match(self@, key@, *modifiers) {
                Some(i) => Some(&self@[i].command),
                None => None,
            }),
    {
        match self.position(key, modifiers) {
            Some(i) => Some(&self.shortcuts[i].command),
            None => None,
        }
    }

    /// All registered shortcuts, in registration order.
    pub fn shortcuts(&self) -> (r: &[KeyboardShortcut<C>])
        ensures
            r@ == self@,
    {
        self.shortcuts.as_slice()
    }

    /// Position of the first shortcut matching `key` + `modifiers`.
    fn position(&self, key: &str, modifiers: &Modifiers) -> (r: Option<usize>)
        ensures
            r matches Some(k) ==> k < self@.len() && first_match(self@, key@, *modifiers) == Some(k as int),
            r is None ==> first_match(self@, key@, *modifiers) is None,
    {
        let ghost p = triggered_by::<C>(key@, *modifiers);
        let wanted = String::from_str(key);
        let n = self.shortcuts.len();
        let mut i: usize = 0;
        while i < n
            invariant
                n == self.shortcuts@.len(),
                wanted@ == key@,
                i <= n,
                p == triggered_by::<C>(key@, *modifiers),
                forall|j: int| 0 <= j < i ==> !p(#[trigger] self.shortcuts@[j]),
            decreases n - i,
        {
            let s = &self.shortcuts[i];
            if s.key == wanted && s.modifiers == *modifiers {
                proof {
                    assert(is_first_where(self@, p, i as int));
                    lemma_first_where_unique(self@, p, i as int);
                }
                return Some(i);
            }
            i = i + 1;
        }
        proof {
            lemma_first_where_none(self@, p);
        }
        None
    }

    /// Find the first shortcut matching `key` + `modifiers`.
    pub fn find(&self, key: &str, modifiers: &Modifiers) -> (r: Option<&KeyboardShortcut<C>>)
        ensures
            r == (match first_match(self@, key@, *modifiers) {
                Some(i) => Some(&self@[i]),
                None => None,
            }),
    {
        match self.position(key, modifiers) {
            Some(i) => Some(&self.shortcuts[i]),
            None => None,
        }
    }

    /// Remove the first shortcut matching `key` + `modifiers`; returns
    /// whether there was one.
    pub fn remove(&mut self, key: &str, modifiers: &Modifiers) -> (r: bool)
        ensures
            r == first_match(old(self)@, key@, *modifiers) is Some,
            final(self)@ == (match first_match(old(self)@, key@, *modifiers) {
                Some(i) => old(self)@.remove(i),
                None => old(self)@,
            }),
    {
        match self.position(key, modifiers) {
            Some(pos) => {
                self.shortcuts.remove(pos);
                true
            },
            None => false,
        }
    }

    /// Number of registered shortcuts.
    pub fn len(&self) -> (r: usize)
        ensures
            r == self@.len(),
    {
        self.shortcuts.len()
    }

    /// Whether no shortcut is registered.
    pub fn is_empty(&self) -> (r: bool)
        ensures
            r == (self@.len() == 0),
    {
        self.shortcuts.len() == 0
    }
}

impl<C> Default for KeyboardShortcutMap<C> {
    fn default() -> (r: Self)
        ensures
            r@ == Seq::<KeyboardShortcut<C>>::empty(),
    {
        Self::new()
    }
}

/// Commands that the preset shortcut profiles bind keys to. The host
/// attaches the numbers that a chart command needs beyond these.
#[derive(Debug, Clone, Copy, PartialEq, Eq, Structural)]
pub enum PresetCommand {
    /// Cancel the drawing in progress.
    CancelDrawing,
    /// Deselect all drawings.
    DeselectAll,
    /// Delete the selected drawing.
    DeleteSelected,
    /// Zoom in at the cursor.
    ZoomIn,
    /// Zoom out at the cursor.
    ZoomOut,
    /// Pan in time by this many units.
    PanTime(i64),
    /// Pan in price by this many units (up is positive).
    PanPrice(i8),
    /// Start drawing with this tool.
    StartDrawing(DrawingTool),
    /// Only ask for a redraw.
    RequestRedraw,
}

/// A row of a preset profile: key name, command, description.
pub type PresetRow = (Seq<char>, PresetCommand, Seq<char>);

/// The key of the `i`-th drawing-tool shortcut (`"1"` to `"9"`).
pub open spec fn digit_key(i: int) -> Seq<char> {
    if i == 0 {
        "1"@
    } else if i == 1 {
        "2"@
    } else if i == 2 {
        "3"@
    } else if i == 3 {
        "4"@
    } else if i == 4 {
        "5"@
    } else if i == 5 {
        "6"@
    } else if i == 6 {
        "7"@
    } else if i == 7 {
        "8"@
    } else {
        "9"@
    }
}

/// The tool of the `i`-th drawing-tool shortcut.
pub open spec fn digit_preset_tool(i: int) -> DrawingTool {
    if i == 0 {
        DrawingTool::TrendLine
    } else if i == 1 {
        DrawingTool::Arrow
    } else if i == 2 {
        DrawingTool::Ray
    } else if i == 3 {
        DrawingTool::Segment
    } else if i == 4 {
        DrawingTool::Rectangle
    } else if i == 5 {
        DrawingTool::Ellipse
    } else if i == 6 {
        DrawingTool::HorizontalLine
    } else if i == 7 {
        DrawingTool::VerticalLine
    } else {
        DrawingTool::FibonacciRetracement
    }
}

/// The name of the `i`-th drawing-tool shortcut's tool, as its description shows it.
pub open spec fn digit_tool_name(i: int) -> Seq<char> {
    if i == 0 {
        "TrendLine"@
    } else if i == 1 {
        "Arrow"@
    } else if i == 2 {
        "Ray"@
    } else if i == 3 {
        "Segment"@
    } else if i == 4 {
        "Rectangle"@
    } else if i == 5 {
        "Ellipse"@
    } else if i == 6 {
        "HorizontalLine"@
    } else if i == 7 {
        "VerticalLine"@
    } else {
        "FibonacciRetracement"@
    }
}

/// The `i`-th drawing-tool row: digit `i + 1` starts its tool.
pub open spec fn digit_row(i: int) -> PresetRow {
    (digit_key(i), PresetCommand::StartDrawing(digit_preset_tool(i)), "Start drawing "@ + digit_tool_name(i))
}

/// The default profile: Escape cancels and deselects, Delete / Backspace
/// delete, `+` / `=` / `-` zoom, the arrows pan, and 1 to 9 start the
/// drawing tools.
pub open spec fn default_table() -> Seq<PresetRow> {
    seq![
        ("Escape"@, PresetCommand::CancelDrawing, "Cancel drawing and deselect all"@),
        ("Escape"@, PresetCommand::DeselectAll, "Deselect all"@),
        ("Delete"@, PresetCommand::DeleteSelected, "Delete selected drawing"@),
        ("Backspace"@, PresetCommand::DeleteSelected, "Delete selected drawing"@),
        ("+"@, PresetCommand::ZoomIn, "Zoom in at cursor"@),
        ("="@, PresetCommand::ZoomIn, "Zoom in at cursor"@),
        ("-"@, PresetCommand::ZoomOut, "Zoom out at cursor"@),
        ("ArrowLeft"@, PresetCommand::PanTime(-5i64), "Pan left"@),
        ("ArrowRight"@, PresetCommand::PanTime(5i64), "Pan right"@),
        ("ArrowUp"@, PresetCommand::PanPrice(5i8), "Pan up"@),
        ("ArrowDown"@, PresetCommand::PanPrice(-5i8), "Pan down"@),
    ] + Seq::new(9, |i: int| digit_row(i))
}

/// The trading profile: the default one, then `h`, `m` and space, which
/// ask for a redraw (crosshair mode, magnetic crosshair, auto-scroll toggles).
pub open spec fn trading_table() -> Seq<PresetRow> {
    default_table() + seq![
        ("h"@, PresetCommand::RequestRedraw, "Toggle crosshair mode"@),
        ("m"@, PresetCommand::RequestRedraw, "Toggle magnetic crosshair"@),
        (" "@, PresetCommand::RequestRedraw, "Toggle auto-scroll"@),
    ]
}

/// The minimal profile: Escape and Delete only.
pub open spec fn minimal_table() -> Seq<PresetRow> {
    seq![
        ("Escape"@, PresetCommand::CancelDrawing, "Cancel drawing"@),
        ("Escape"@, PresetCommand::DeselectAll, "Deselect all"@),
        ("Delete"@, PresetCommand::DeleteSelected, "Delete selected drawing"@),
    ]
}

/// `list` holds the rows of `table` in order, each with no modifier.
pub open spec fn follows_table(list: Seq<KeyboardShortcut<PresetCommand>>, table: Seq<PresetRow>) -> bool {
    &&& list.len() == table.len()
    &&& forall|i: int|
        0 <= i < list.len() ==> {
            &&& (#[trigger] list[i]).key@ == table[i].0
            &&& list[i].modifiers == (Modifiers { shift: false, ctrl: false, alt: false, meta: false })
            &&& list[i].command == table[i].1
            &&& list[i].description@ == table[i].2
        }
}

/// Register row `n` of `table`, with no modifier.
fn register_row(
    map: &mut KeyboardShortcutMap<PresetCommand>,
    key: &str,
    command: PresetCommand,
    description: String,
    Ghost(table): Ghost<Seq<PresetRow>>,
    Ghost(n): Ghost<int>,
)
    requires
        0 <= n < table.len(),
        follows_table(old(map)@, table.take(n)),
        table[n] == (key@, command, description@),
    ensures
        follows_table(final(map)@, table.take(n + 1)),
{
    let s = KeyboardShortcut {
        key: String::from_str(key),
        modifiers: Modifiers::none(),
        command,
        description,
    };
    map.register(s);
    assert(table.take(n + 1) =~= table.take(n).push(table[n]));
}

/// The key, tool and tool name of the `i`-th drawing-tool shortcut.
fn digit_preset(i: usize) -> (r: (&'static str, DrawingTool, &'static str))
    requires
        i < 9,
    ensures
        r.0@ == digit_key(i as int),
        r.1 == digit_preset_tool(i as int),
        r.2@ == digit_tool_name(i as int),
{
    if i == 0 {
        ("1", DrawingTool::TrendLine, "TrendLine")
    } else if i == 1 {
        ("2", DrawingTool::Arrow, "Arrow")
    } else if i == 2 {
        ("3", DrawingTool::Ray, "Ray")
    } else if i == 3 {
        ("4", DrawingTool::Segment, "Segment")
    } else if i == 4 {
        ("5", DrawingTool::Rectangle, "Rectangle")
    } else if i == 5 {
        ("6", DrawingTool::Ellipse, "Ellipse")
    } else if i == 6 {
        ("7", DrawingTool::HorizontalLine, "HorizontalLine")
    } else if i == 7 {
        ("8", DrawingTool::VerticalLine, "VerticalLine")
    } else {
        ("9", DrawingTool::FibonacciRetracement, "FibonacciRetracement")
    }
}

/// Preset shortcut profiles.
pub struct KeyboardPresets;

impl KeyboardPresets {
    /// Default shortcuts: Escape = cancel / deselect, Delete / Backspace =
    /// delete, + / - = zoom, arrows = pan, 1-9 = drawing tools.
    pub fn default_shortcuts() -> (r: KeyboardShortcutMap<PresetCommand>)
        ensures
            follows_table(r@, default_table()),
    {
        let ghost t = default_table();
        let mut map = KeyboardShortcutMap::new();
        assert(t.len() == 20);
        assert(t.take(0) =~= Seq::<PresetRow>::empty());
        register_row(&mut map, "Escape", PresetCommand::CancelDrawing, String::from_str("Cancel drawing and deselect all"), Ghost(t), Ghost(0));
        register_row(&mut map, "Escape", PresetCommand::DeselectAll, String::from_str("Deselect all"), Ghost(t), Ghost(1));
        register_row(&mut map, "Delete", PresetCommand::DeleteSelected, String::from_str("Delete selected drawing"), Ghost(t), Ghost(2));
        register_row(&mut map, "Backspace", PresetCommand::DeleteSelected, String::from_str("Delete selected drawing"), Ghost(t), Ghost(3));

        // Zoom
        register_row(&mut map, "+", PresetCommand::ZoomIn, String::from_str("Zoom in at cursor"), Ghost(t), Ghost(4));
        register_row(&mut map, "=", PresetCommand::ZoomIn, String::from_str("Zoom in at cursor"), Ghost(t), Ghost(5));
        register_row(&mut map, "-", PresetCommand::ZoomOut, String::from_str("Zoom out at cursor"), Ghost(t), Ghost(6));

        // Pan
        register_row(&mut map, "ArrowLeft", PresetCommand::PanTime(-5), String::from_str("Pan left"), Ghost(t), Ghost(7));
        register_row(&mut map, "ArrowRight", PresetCommand::PanTime(5), String::from_str("Pan right"), Ghost(t), Ghost(8));
        register_row(&mut map, "ArrowUp", PresetCommand::PanPrice(5), String::from_str("Pan up"), Ghost(t), Ghost(9));
        register_row(&mut map, "ArrowDown", PresetCommand::PanPrice(-5), String::from_str("Pan down"), Ghost(t), Ghost(10));

        // Drawing tools 1-9
        let mut i: usize = 0;
        while i < 9
            invariant
                i <= 9,
                t == default_table(),
                t.len() == 20,
                follows_table(map@, t.take(11 + i)),
            decreases 9 - i,
        {
            let (key, tool, name) = digit_preset(i);
            let mut description = String::from_str("Start drawing ");
            description.append(name);
            assert(t[11 + i as int] == digit_row(i as int));
            register_row(&mut map, key, PresetCommand::StartDrawing(tool), description, Ghost(t), Ghost(11 + i as int));
            i = i + 1;
        }
        assert(t.take(20) =~= t);
        map
    }

    /// Trading-focused shortcuts: the default ones, then toggles for the
    /// crosshair mode (`h`), the magnetic crosshair (`m`) and auto-scroll (space).
    pub fn trading_shortcuts() -> (r: KeyboardShortcutMap<PresetCommand>)
        ensures
            follows_table(r@, trading_table()),
    {
        let ghost t = trading_table();
        let mut map = Self::default_shortcuts();
        assert(t.len() == 23);
        assert(t.take(20) =~= default_table());
        register_row(&mut map, "h", PresetCommand::RequestRedraw, String::from_str("Toggle crosshair mode"), Ghost(t), Ghost(20));
        register_row(&mut map, "m", PresetCommand::RequestRedraw, String::from_str("Toggle magnetic crosshair"), Ghost(t), Ghost(21));
        register_row(&mut map, " ", PresetCommand::RequestRedraw, String::from_str("Toggle auto-scroll"), Ghost(t), Ghost(22));
        assert(t.take(23) =~= t);
        map
    }

    /// Minimal shortcuts: only Escape and Delete.
    pub fn minimal_shortcuts() -> (r: KeyboardShortcutMap<PresetCommand>)
        ensures
            follows_table(r@, minimal_table()),
    {
        let ghost t = minimal_table();
        let mut map = KeyboardShortcutMap::new();
        assert(t.len() == 3);
        assert(t.take(0) =~= Seq::<PresetRow>::empty());
        register_row(&mut map, "Escape", PresetCommand::CancelDrawing, String::from_str("Cancel drawing"), Ghost(t), Ghost(0));
        register_row(&mut map, "Escape", PresetCommand::DeselectAll, String::from_str("Deselect all"), Ghost(t), Ghost(1));
        register_row(&mut map, "Delete", PresetCommand::DeleteSelected, String::from_str("Delete selected drawing"), Ghost(t), Ghost(2));
        assert(t.take(3) =~= t);
        map
    }
}

/// The rows of the default profile after its first eleven are the digit
/// rows: row `11 + i` is `digit_row(i)`.
proof fn lemma_default_digit_row(i: int)
    requires
        0 <= i < 9,
    ensures
        default_table().len() == 20,
        default_table()[11 + i] == digit_row(i),
{
}

/// In the default profile, the key of the `i`-th digit row is bound by no
/// earlier row.
proof fn lemma_default_digit_key_first(i: int, j: int)
    requires
        0 <= i < 9,
        0 <= j < 11 + i,
    ensures
        default_table()[j].0 != digit_key(i),
{
    reveal_strlit("Escape");
    reveal_strlit("Delete");
    reveal_strlit("Backspace");
    reveal_strlit("+");
    reveal_strlit("=");
    reveal_strlit("-");
    reveal_strlit("ArrowLeft");
    reveal_strlit("ArrowRight");
    reveal_strlit("ArrowUp");
    reveal_strlit("ArrowDown");
    reveal_strlit("1");
    reveal_strlit("2");
    reveal_strlit("3");
    reveal_strlit("4");
    reveal_strlit("5");
    reveal_strlit("6");
    reveal_strlit("7");
    reveal_strlit("8");
    reveal_strlit("9");
    let t = default_table();
    if j >= 11 {
        lemma_default_digit_row(j - 11);
        lemma_default_digit_row(i);
        assert(t[j].0 == digit_key(j - 11));
        assert(digit_key(j - 11)[0] != digit_key(i)[0]);
    } else {
        assert(t[j].0.len() != 1 || t[j].0[0] != digit_key(i)[0]);
    }
}

/// In a map built from the default profile, the digit key of the `i`-th
/// digit row triggers that row first.
proof fn lemma_default_digit_first_match(list: Seq<KeyboardShortcut<PresetCommand>>, i: int)
    requires
        follows_table(list, default_table()),
        0 <= i < 9,
    ensures
        first_match(list, digit_key(i), Modifiers { shift: false, ctrl: false, alt: false, meta: false })
            == Some(11 + i),
        list[11 + i].command == digit_row(i).1,
        list[11 + i].description@ == digit_row(i).2,
{
    let m = Modifiers { shift: false, ctrl: false, alt: false, meta: false };
    let p = triggered_by::<PresetCommand>(digit_key(i), m);
    lemma_default_digit_row(i);
    assert forall|j: int| 0 <= j < 11 + i implies !p(#[trigger] list[j]) by {
        lemma_default_digit_key_first(i, j);
    }
    assert(is_first_where(list, p, 11 + i));
    lemma_first_where_unique(list, p, 11 + i);
}

/// The default profile binds the digit keys, with no modifier, to the
/// drawing tools in this order: 1 the trend line, 2 the arrow, 3 the ray,
/// 4 the segment, 5 the rectangle, 6 the ellipse, 7 the horizontal line,
/// 8 the vertical line and 9 the Fibonacci retracement, each described as
/// "Start drawing" and the tool's name. Handling a digit key in a map built
/// from the profile gives that command.
pub proof fn law_default_digit_bindings(list: Seq<KeyboardShortcut<PresetCommand>>)
    requires
        follows_table(list, default_table()),
    ensures
        ({
            let m = Modifiers { shift: false, ctrl: false, alt: false, meta: false };
            &&& first_match(list, "1"@, m) == Some(11int)
            &&& list[11].command == PresetCommand::StartDrawing(DrawingTool::TrendLine)
            &&& list[11].description@ == "Start drawing TrendLine"@
            &&& first_match(list, "2"@, m) == Some(12int)
            &&& list[12].command == PresetCommand::StartDrawing(DrawingTool::Arrow)
            &&& list[12].description@ == "Start drawing Arrow"@
            &&& first_match(list, "3"@, m) == Some(13int)
            &&& list[13].command == PresetCommand::StartDrawing(DrawingTool::Ray)
            &&& list[13].description@ == "Start drawing Ray"@
            &&& first_match(list, "4"@, m) == Some(14int)
            &&& list[14].command == PresetCommand::StartDrawing(DrawingTool::Segment)
            &&& list[14].description@ == "Start drawing Segment"@
            &&& first_match(list, "5"@, m) == Some(15int)
            &&& list[15].command == PresetCommand::StartDrawing(DrawingTool::Rectangle)
            &&& list[15].description@ == "Start drawing Rectangle"@
            &&& first_match(list, "6"@, m) == Some(16int)
            &&& list[16].command == PresetCommand::StartDrawing(DrawingTool::Ellipse)
            &&& list[16].description@ == "Start drawing Ellipse"@
            &&& first_match(list, "7"@, m) == Some(17int)
            &&& list[17].command == PresetCommand::StartDrawing(DrawingTool::HorizontalLine)
            &&& list[17].description@ == "Start drawing HorizontalLine"@
            &&& first_match(list, "8"@, m) == Some(18int)
            &&& list[18].command == PresetCommand::StartDrawing(DrawingTool::VerticalLine)
            &&& list[18].description@ == "Start drawing VerticalLine"@
            &&& first_match(list, "9"@, m) == Some(19int)
            &&& list[19].command == PresetCommand::StartDrawing(DrawingTool::FibonacciRetracement)
            &&& list[19].description@ == "Start drawing FibonacciRetracement"@
        }),
{
    lemma_default_digit_first_match(list, 0);
    lemma_default_digit_first_match(list, 1);
    lemma_default_digit_first_match(list, 2);
    lemma_default_digit_first_match(list, 3);
    lemma_default_digit_first_match(list, 4);
    lemma_default_digit_first_match(list, 5);
    lemma_default_digit_first_match(list, 6);
    lemma_default_digit_first_match(list, 7);
    lemma_default_digit_first_match(list, 8);
    reveal_strlit("Start drawing ");
    reveal_strlit("TrendLine");
    reveal_strlit("Arrow");
    reveal_strlit("Ray");
    reveal_strlit("Segment");
    reveal_strlit("Rectangle");
    reveal_strlit("Ellipse");
    reveal_strlit("HorizontalLine");
    reveal_strlit("VerticalLine");
    reveal_strlit("FibonacciRetracement");
    reveal_strlit("Start drawing TrendLine");
    reveal_strlit("Start drawing Arrow");
    reveal_strlit("Start drawing Ray");
    reveal_strlit("Start drawing Segment");
    reveal_strlit("Start drawing Rectangle");
    reveal_strlit("Start drawing Ellipse");
    reveal_strlit("Start drawing HorizontalLine");
    reveal_strlit("Start drawing VerticalLine");
    reveal_strlit("Start drawing FibonacciRetracement");
    assert("Start drawing "@ + "TrendLine"@ =~= "Start drawing TrendLine"@);
    assert("Start drawing "@ + "Arrow"@ =~= "Start drawing Arrow"@);
    assert("Start drawing "@ + "Ray"@ =~= "Start drawing Ray"@);
    assert("Start drawing "@ + "Segment"@ =~= "Start drawing Segment"@);
    assert("Start drawing "@ + "Rectangle"@ =~= "Start drawing Rectangle"@);
    assert("Start drawing "@ + "Ellipse"@ =~= "Start drawing Ellipse"@);
    assert("Start drawing "@ + "HorizontalLine"@ =~= "Start drawing HorizontalLine"@);
    assert("Start drawing "@ + "VerticalLine"@ =~= "Start drawing VerticalLine"@);
    assert("Start drawing "@ + "FibonacciRetracement"@ =~= "Start drawing FibonacciRetracement"@);
}

/// A first match within a prefix of a list is the first match in the list.
proof fn lemma_first_match_prefix<C>(list: Seq<KeyboardShortcut<C>>, n: int, key: Seq<char>, m: Modifiers)
    requires
        0 <= n <= list.len(),
        first_match(list.take(n), key, m) is Some,
    ensures
        first_match(list, key, m) == first_match(list.take(n), key, m),
{
    let d = list.take(n);
    let p = triggered_by::<C>(key, m);
    let i = choose|i: int| is_first_where(d, p, i);
    assert(is_first_where(d, p, i));
    lemma_first_where_unique(d, p, i);
    assert forall|j: int| 0 <= j < i implies !p(#[trigger] list[j]) by {
        assert(list[j] == d[j]);
    }
    assert(list[i] == d[i]);
    assert(is_first_where(list, p, i));
    lemma_first_where_unique(list, p, i);
}

/// The trading profile binds the digit keys as the default one does: 1 the
/// trend line, 2 the arrow, 3 the ray, 4 the segment, 5 the rectangle, 6 the
/// ellipse, 7 the horizontal line, 8 the vertical line and 9 the Fibonacci
/// retracement.
pub proof fn law_trading_digit_bindings(list: Seq<KeyboardShortcut<PresetCommand>>)
    requires
        follows_table(list, trading_table()),
    ensures
        ({
            let m = Modifiers { shift: false, ctrl: false, alt: false, meta: false };
            &&& first_match(list, "1"@, m) == Some(11int)
            &&& list[11].command == PresetCommand::StartDrawing(DrawingTool::TrendLine)
            &&& first_match(list, "2"@, m) == Some(12int)
            &&& list[12].command == PresetCommand::StartDrawing(DrawingTool::Arrow)
            &&& first_match(list, "3"@, m) == Some(13int)
            &&& list[13].command == PresetCommand::StartDrawing(DrawingTool::Ray)
            &&& first_match(list, "4"@, m) == Some(14int)
            &&& list[14].command == PresetCommand::StartDrawing(DrawingTool::Segment)
            &&& first_match(list, "5"@, m) == Some(15int)
            &&& list[15].command == PresetCommand::StartDrawing(DrawingTool::Rectangle)
            &&& first_match(list, "6"@, m) == Some(16int)
            &&& list[16].command == PresetCommand::StartDrawing(DrawingTool::Ellipse)
            &&& first_match(list, "7"@, m) == Some(17int)
            &&& list[17].command == PresetCommand::StartDrawing(DrawingTool::HorizontalLine)
            &&& first_match(list, "8"@, m) == Some(18int)
            &&& list[18].command == PresetCommand::StartDrawing(DrawingTool::VerticalLine)
            &&& first_match(list, "9"@, m) == Some(19int)
            &&& list[19].command == PresetCommand::StartDrawing(DrawingTool::FibonacciRetracement)
        }),
{
    let m = Modifiers { shift: false, ctrl: false, alt: false, meta: false };
    let d = list.take(20);
    let t = trading_table();
    assert(t.len() == 23);
    assert forall|j: int| 0 <= j < 20 implies #[trigger] t[j] == default_table()[j] by {}
    assert(follows_table(d, default_table())) by {
        assert forall|j: int| 0 <= j < d.len() implies {
            &&& (#[trigger] d[j]).key@ == default_table()[j].0
            &&& d[j].modifiers == m
            &&& d[j].command == default_table()[j].1
            &&& d[j].description@ == default_table()[j].2
        } by {
            assert(d[j] == list[j]);
            assert(t[j] == default_table()[j]);
        }
    }
    law_default_digit_bindings(d);
    lemma_first_match_prefix(list, 20, "1"@, m);
    lemma_first_match_prefix(list, 20, "2"@, m);
    lemma_first_match_prefix(list, 20, "3"@, m);
    lemma_first_match_prefix(list, 20, "4"@, m);
    lemma_first_match_prefix(list, 20, "5"@, m);
    lemma_first_match_prefix(list, 20, "6"@, m);
    lemma_first_match_prefix(list, 20, "7"@, m);
    lemma_first_match_prefix(list, 20, "8"@, m);
    lemma_first_match_prefix(list, 20, "9"@, m);
    assert(d[11] == list[11] && d[12] == list[12] && d[13] == list[13] && d[14] == list[14]);
    assert(d[15] == list[15] && d[16] == list[16] && d[17] == list[17] && d[18] == list[18]);
    assert(d[19] == list[19]);
}


/// In the trading profile (and so in the default one, its first twenty
/// rows), two rows at different positions have different keys, except the
/// two Escape rows.
proof fn lemma_trading_keys_differ(i: int, j: int)
    requires
        0 <= j < i < 23,
        !(j == 0 && i == 1),
    ensures
        trading_table()[j].0 != trading_table()[i].0,
        i < 20 ==> default_table()[j].0 != default_table()[i].0,
{
    reveal_strlit("Escape");
    reveal_strlit("Delete");
    reveal_strlit("Backspace");
    reveal_strlit("+");
    reveal_strlit("=");
    reveal_strlit("-");
    reveal_strlit("ArrowLeft");
    reveal_strlit("ArrowRight");
    reveal_strlit("ArrowUp");
    reveal_strlit("ArrowDown");
    reveal_strlit("1");
    reveal_strlit("2");
    reveal_strlit("3");
    reveal_strlit("4");
    reveal_strlit("5");
    reveal_strlit("6");
    reveal_strlit("7");
    reveal_strlit("8");
    reveal_strlit("9");
    reveal_strlit("h");
    reveal_strlit("m");
    reveal_strlit(" ");
    let t = trading_table();
    let d = default_table();
    lemma_default_digit_row(0);
    lemma_default_digit_row(1);
    lemma_default_digit_row(2);
    lemma_default_digit_row(3);
    lemma_default_digit_row(4);
    lemma_default_digit_row(5);
    lemma_default_digit_row(6);
    lemma_default_digit_row(7);
    lemma_default_digit_row(8);
    assert(t.len() == 23);
    assert(i < 20 ==> t[i] == d[i] && t[j] == d[j]);
    assert(t[0].0 == "Escape"@);
    assert(t[1].0 == "Escape"@);
    assert(t[2].0 == "Delete"@);
    assert(t[3].0 == "Backspace"@);
    assert(t[4].0 == "+"@);
    assert(t[5].0 == "="@);
    assert(t[6].0 == "-"@);
    assert(t[7].0 == "ArrowLeft"@);
    assert(t[8].0 == "ArrowRight"@);
    assert(t[9].0 == "ArrowUp"@);
    assert(t[10].0 == "ArrowDown"@);
    assert(t[11].0 == "1"@);
    assert(t[12].0 == "2"@);
    assert(t[13].0 == "3"@);
    assert(t[14].0 == "4"@);
    assert(t[15].0 == "5"@);
    assert(t[16].0 == "6"@);
    assert(t[17].0 == "7"@);
    assert(t[18].0 == "8"@);
    assert(t[19].0 == "9"@);
    assert(t[20].0 == "h"@);
    assert(t[21].0 == "m"@);
    assert(t[22].0 == " "@);
    if j == 0 && i == 2 {
        assert("Escape"@[0] != "Delete"@[0]);
    } else if j == 1 && i == 2 {
        assert("Escape"@[0] != "Delete"@[0]);
    } else if j == 0 && i == 3 {
        assert("Escape"@.len() != "Backspace"@.len());
    } else if j == 1 && i == 3 {
        assert("Escape"@.len() != "Backspace"@.len());
    } else if j == 2 && i == 3 {
        assert("Delete"@.len() != "Backspace"@.len());
    } else if j == 0 && i == 4 {
        assert("Escape"@.len() != "+"@.len());
    } else if j == 1 && i == 4 {
        assert("Escape"@.len() != "+"@.len());
    } else if j == 2 && i == 4 {
        assert("Delete"@.len() != "+"@.len());
    } else if j == 3 && i == 4 {
        assert("Backspace"@.len() != "+"@.len());
    } else if j == 0 && i == 5 {
        assert("Escape"@.len() != "="@.len());
    } else if j == 1 && i == 5 {
        assert("Escape"@.len() != "="@.len());
    } else if j == 2 && i == 5 {
        assert("Delete"@.len() != "="@.len());
    } else if j == 3 && i == 5 {
        assert("Backspace"@.len() != "="@.len());
    } else if j == 4 && i == 5 {
        assert("+"@[0] != "="@[0]);
    } else if j == 0 && i == 6 {
        assert("Escape"@.len() != "-"@.len());
    } else if j == 1 && i == 6 {
        assert("Escape"@.len() != "-"@.len());
    } else if j == 2 && i == 6 {
        assert("Delete"@.len() != "-"@.len());
    } else if j == 3 && i == 6 {
        assert("Backspace"@.len() != "-"@.len());
    } else if j == 4 && i == 6 {
        assert("+"@[0] != "-"@[0]);
    } else if j == 5 && i == 6 {
        assert("="@[0] != "-"@[0]);
    } else if j == 0 && i == 7 {
        assert("Escape"@.len() != "ArrowLeft"@.len());
    } else if j == 1 && i == 7 {
        assert("Escape"@.len() != "ArrowLeft"@.len());
    } else if j == 2 && i == 7 {
        assert("Delete"@.len() != "ArrowLeft"@.len());
    } else if j == 3 && i == 7 {
        assert("Backspace"@[0] != "ArrowLeft"@[0]);
    } else if j == 4 && i == 7 {
        assert("+"@.len() != "ArrowLeft"@.len());
    } else if j == 5 && i == 7 {
        assert("="@.len() != "ArrowLeft"@.len());
    } else if j == 6 && i == 7 {
        assert("-"@.len() != "ArrowLeft"@.len());
    } else if j == 0 && i == 8 {
        assert("Escape"@.len() != "ArrowRight"@.len());
    } else if j == 1 && i == 8 {
        assert("Escape"@.len() != "ArrowRight"@.len());
    } else if j == 2 && i == 8 {
        assert("Delete"@.len() != "ArrowRight"@.len());
    } else if j == 3 && i == 8 {
        assert("Backspace"@.len() != "ArrowRight"@.len());
    } else if j == 4 && i == 8 {
        assert("+"@.len() != "ArrowRight"@.len());
    } else if j == 5 && i == 8 {
        assert("="@.len() != "ArrowRight"@.len());
    } else if j == 6 && i == 8 {
        assert("-"@.len() != "ArrowRight"@.len());
    } else if j == 7 && i == 8 {
        assert("ArrowLeft"@.len() != "ArrowRight"@.len());
    } else if j == 0 && i == 9 {
        assert("Escape"@.len() != "ArrowUp"@.len());
    } else if j == 1 && i == 9 {
        assert("Escape"@.len() != "ArrowUp"@.len());
    } else if j == 2 && i == 9 {
        assert("Delete"@.len() != "ArrowUp"@.len());
    } else if j == 3 && i == 9 {
        assert("Backspace"@.len() != "ArrowUp"@.len());
    } else if j == 4 && i == 9 {
        assert("+"@.len() != "ArrowUp"@.len());
    } else if j == 5 && i == 9 {
        assert("="@.len() != "ArrowUp"@.len());
    } else if j == 6 && i == 9 {
        assert("-"@.len() != "ArrowUp"@.len());
    } else if j == 7 && i == 9 {
        assert("ArrowLeft"@.len() != "ArrowUp"@.len());
    } else if j == 8 && i == 9 {
        assert("ArrowRight"@.len() != "ArrowUp"@.len());
    } else if j == 0 && i == 10 {
        assert("Escape"@.len() != "ArrowDown"@.len());
    } else if j == 1 && i == 10 {
        assert("Escape"@.len() != "ArrowDown"@.len());
    } else if j == 2 && i == 10 {
        assert("Delete"@.len() != "ArrowDown"@.len());
    } else if j == 3 && i == 10 {
        assert("Backspace"@[0] != "ArrowDown"@[0]);
    } else if j == 4 && i == 10 {
        assert("+"@.len() != "ArrowDown"@.len());
    } else if j == 5 && i == 10 {
        assert("="@.len() != "ArrowDown"@.len());
    } else if j == 6 && i == 10 {
        assert("-"@.len() != "ArrowDown"@.len());
    } else if j == 7 && i == 10 {
        assert("ArrowLeft"@[5] != "ArrowDown"@[5]);
    } else if j == 8 && i == 10 {
        assert("ArrowRight"@.len() != "ArrowDown"@.len());
    } else if j == 9 && i == 10 {
        assert("ArrowUp"@.len() != "ArrowDown"@.len());
    } else if j == 0 && i == 11 {
        assert("Escape"@.len() != "1"@.len());
    } else if j == 1 && i == 11 {
        assert("Escape"@.len() != "1"@.len());
    } else if j == 2 && i == 11 {
        assert("Delete"@.len() != "1"@.len());
    } else if j == 3 && i == 11 {
        assert("Backspace"@.len() != "1"@.len());
    } else if j == 4 && i == 11 {
        assert("+"@[0] != "1"@[0]);
    } else if j == 5 && i == 11 {
        assert("="@[0] != "1"@[0]);
    } else if j == 6 && i == 11 {
        assert("-"@[0] != "1"@[0]);
    } else if j == 7 && i == 11 {
        assert("ArrowLeft"@.len() != "1"@.len());
    } else if j == 8 && i == 11 {
        assert("ArrowRight"@.len() != "1"@.len());
    } else if j == 9 && i == 11 {
        assert("ArrowUp"@.len() != "1"@.len());
    } else if j == 10 && i == 11 {
        assert("ArrowDown"@.len() != "1"@.len());
    } else if j == 0 && i == 12 {
        assert("Escape"@.len() != "2"@.len());
    } else if j == 1 && i == 12 {
        assert("Escape"@.len() != "2"@.len());
    } else if j == 2 && i == 12 {
        assert("Delete"@.len() != "2"@.len());
    } else if j == 3 && i == 12 {
        assert("Backspace"@.len() != "2"@.len());
    } else if j == 4 && i == 12 {
        assert("+"@[0] != "2"@[0]);
    } else if j == 5 && i == 12 {
        assert("="@[0] != "2"@[0]);
    } else if j == 6 && i == 12 {
        assert("-"@[0] != "2"@[0]);
    } else if j == 7 && i == 12 {
        assert("ArrowLeft"@.len() != "2"@.len());
    } else if j == 8 && i == 12 {
        assert("ArrowRight"@.len() != "2"@.len());
    } else if j == 9 && i == 12 {
        assert("ArrowUp"@.len() != "2"@.len());
    } else if j == 10 && i == 12 {
        assert("ArrowDown"@.len() != "2"@.len());
    } else if j == 11 && i == 12 {
        assert("1"@[0] != "2"@[0]);
    } else if j == 0 && i == 13 {
        assert("Escape"@.len() != "3"@.len());
    } else if j == 1 && i == 13 {
        assert("Escape"@.len() != "3"@.len());
    } else if j == 2 && i == 13 {
        assert("Delete"@.len() != "3"@.len());
    } else if j == 3 && i == 13 {
        assert("Backspace"@.len() != "3"@.len());
    } else if j == 4 && i == 13 {
        assert("+"@[0] != "3"@[0]);
    } else if j == 5 && i == 13 {
        assert("="@[0] != "3"@[0]);
    } else if j == 6 && i == 13 {
        assert("-"@[0] != "3"@[0]);
    } else if j == 7 && i == 13 {
        assert("ArrowLeft"@.len() != "3"@.len());
    } else if j == 8 && i == 13 {
        assert("ArrowRight"@.len() != "3"@.len());
    } else if j == 9 && i == 13 {
        assert("ArrowUp"@.len() != "3"@.len());
    } else if j == 10 && i == 13 {
        assert("ArrowDown"@.len() != "3"@.len());
    } else if j == 11 && i == 13 {
        assert("1"@[0] != "3"@[0]);
    } else if j == 12 && i == 13 {
        assert("2"@[0] != "3"@[0]);
    } else if j == 0 && i == 14 {
        assert("Escape"@.len() != "4"@.len());
    } else if j == 1 && i == 14 {
        assert("Escape"@.len() != "4"@.len());
    } else if j == 2 && i == 14 {
        assert("Delete"@.len() != "4"@.len());
    } else if j == 3 && i == 14 {
        assert("Backspace"@.len() != "4"@.len());
    } else if j == 4 && i == 14 {
        assert("+"@[0] != "4"@[0]);
    } else if j == 5 && i == 14 {
        assert("="@[0] != "4"@[0]);
    } else if j == 6 && i == 14 {
        assert("-"@[0] != "4"@[0]);
    } else if j == 7 && i == 14 {
        assert("ArrowLeft"@.len() != "4"@.len());
    } else if j == 8 && i == 14 {
        assert("ArrowRight"@.len() != "4"@.len());
    } else if j == 9 && i == 14 {
        assert("ArrowUp"@.len() != "4"@.len());
    } else if j == 10 && i == 14 {
        assert("ArrowDown"@.len() != "4"@.len());
    } else if j == 11 && i == 14 {
        assert("1"@[0] != "4"@[0]);
    } else if j == 12 && i == 14 {
        assert("2"@[0] != "4"@[0]);
    } else if j == 13 && i == 14 {
        assert("3"@[0] != "4"@[0]);
    } else if j == 0 && i == 15 {
        assert("Escape"@.len() != "5"@.len());
    } else if j == 1 && i == 15 {
        assert("Escape"@.len() != "5"@.len());
    } else if j == 2 && i == 15 {
        assert("Delete"@.len() != "5"@.len());
    } else if j == 3 && i == 15 {
        assert("Backspace"@.len() != "5"@.len());
    } else if j == 4 && i == 15 {
        assert("+"@[0] != "5"@[0]);
    } else if j == 5 && i == 15 {
        assert("="@[0] != "5"@[0]);
    } else if j == 6 && i == 15 {
        assert("-"@[0] != "5"@[0]);
    } else if j == 7 && i == 15 {
        assert("ArrowLeft"@.len() != "5"@.len());
    } else if j == 8 && i == 15 {
        assert("ArrowRight"@.len() != "5"@.len());
    } else if j == 9 && i == 15 {
        assert("ArrowUp"@.len() != "5"@.len());
    } else if j == 10 && i == 15 {
        assert("ArrowDown"@.len() != "5"@.len());
    } else if j == 11 && i == 15 {
        assert("1"@[0] != "5"@[0]);
    } else if j == 12 && i == 15 {
        assert("2"@[0] != "5"@[0]);
    } else if j == 13 && i == 15 {
        assert("3"@[0] != "5"@[0]);
    } else if j == 14 && i == 15 {
        assert("4"@[0] != "5"@[0]);
    } else if j == 0 && i == 16 {
        assert("Escape"@.len() != "6"@.len());
    } else if j == 1 && i == 16 {
        assert("Escape"@.len() != "6"@.len());
    } else if j == 2 && i == 16 {
        assert("Delete"@.len() != "6"@.len());
    } else if j == 3 && i == 16 {
        assert("Backspace"@.len() != "6"@.len());
    } else if j == 4 && i == 16 {
        assert("+"@[0] != "6"@[0]);
    } else if j == 5 && i == 16 {
        assert("="@[0] != "6"@[0]);
    } else if j == 6 && i == 16 {
        assert("-"@[0] != "6"@[0]);
    } else if j == 7 && i == 16 {
        assert("ArrowLeft"@.len() != "6"@.len());
    } else if j == 8 && i == 16 {
        assert("ArrowRight"@.len() != "6"@.len());
    } else if j == 9 && i == 16 {
        assert("ArrowUp"@.len() != "6"@.len());
    } else if j == 10 && i == 16 {
        assert("ArrowDown"@.len() != "6"@.len());
    } else if j == 11 && i == 16 {
        assert("1"@[0] != "6"@[0]);
    } else if j == 12 && i == 16 {
        assert("2"@[0] != "6"@[0]);
    } else if j == 13 && i == 16 {
        assert("3"@[0] != "6"@[0]);
    } else if j == 14 && i == 16 {
        assert("4"@[0] != "6"@[0]);
    } else if j == 15 && i == 16 {
        assert("5"@[0] != "6"@[0]);
    } else if j == 0 && i == 17 {
        assert("Escape"@.len() != "7"@.len());
    } else if j == 1 && i == 17 {
        assert("Escape"@.len() != "7"@.len());
    } else if j == 2 && i == 17 {
        assert("Delete"@.len() != "7"@.len());
    } else if j == 3 && i == 17 {
        assert("Backspace"@.len() != "7"@.len());
    } else if j == 4 && i == 17 {
        assert("+"@[0] != "7"@[0]);
    } else if j == 5 && i == 17 {
        assert("="@[0] != "7"@[0]);
    } else if j == 6 && i == 17 {
        assert("-"@[0] != "7"@[0]);
    } else if j == 7 && i == 17 {
        assert("ArrowLeft"@.len() != "7"@.len());
    } else if j == 8 && i == 17 {
        assert("ArrowRight"@.len() != "7"@.len());
    } else if j == 9 && i == 17 {
        assert("ArrowUp"@.len() != "7"@.len());
    } else if j == 10 && i == 17 {
        assert("ArrowDown"@.len() != "7"@.len());
    } else if j == 11 && i == 17 {
        assert("1"@[0] != "7"@[0]);
    } else if j == 12 && i == 17 {
        assert("2"@[0] != "7"@[0]);
    } else if j == 13 && i == 17 {
        assert("3"@[0] != "7"@[0]);
    } else if j == 14 && i == 17 {
        assert("4"@[0] != "7"@[0]);
    } else if j == 15 && i == 17 {
        assert("5"@[0] != "7"@[0]);
    } else if j == 16 && i == 17 {
        assert("6"@[0] != "7"@[0]);
    } else if j == 0 && i == 18 {
        assert("Escape"@.len() != "8"@.len());
    } else if j == 1 && i == 18 {
        assert("Escape"@.len() != "8"@.len());
    } else if j == 2 && i == 18 {
        assert("Delete"@.len() != "8"@.len());
    } else if j == 3 && i == 18 {
        assert("Backspace"@.len() != "8"@.len());
    } else if j == 4 && i == 18 {
        assert("+"@[0] != "8"@[0]);
    } else if j == 5 && i == 18 {
        assert("="@[0] != "8"@[0]);
    } else if j == 6 && i == 18 {
        assert("-"@[0] != "8"@[0]);
    } else if j == 7 && i == 18 {
        assert("ArrowLeft"@.len() != "8"@.len());
    } else if j == 8 && i == 18 {
        assert("ArrowRight"@.len() != "8"@.len());
    } else if j == 9 && i == 18 {
        assert("ArrowUp"@.len() != "8"@.len());
    } else if j == 10 && i == 18 {
        assert("ArrowDown"@.len() != "8"@.len());
    } else if j == 11 && i == 18 {
        assert("1"@[0] != "8"@[0]);
    } else if j == 12 && i == 18 {
        assert("2"@[0] != "8"@[0]);
    } else if j == 13 && i == 18 {
        assert("3"@[0] != "8"@[0]);
    } else if j == 14 && i == 18 {
        assert("4"@[0] != "8"@[0]);
    } else if j == 15 && i == 18 {
        assert("5"@[0] != "8"@[0]);
    } else if j == 16 && i == 18 {
        assert("6"@[0] != "8"@[0]);
    } else if j == 17 && i == 18 {
        assert("7"@[0] != "8"@[0]);
    } else if j == 0 && i == 19 {
        assert("Escape"@.len() != "9"@.len());
    } else if j == 1 && i == 19 {
        assert("Escape"@.len() != "9"@.len());
    } else if j == 2 && i == 19 {
        assert("Delete"@.len() != "9"@.len());
    } else if j == 3 && i == 19 {
        assert("Backspace"@.len() != "9"@.len());
    } else if j == 4 && i == 19 {
        assert("+"@[0] != "9"@[0]);
    } else if j == 5 && i == 19 {
        assert("="@[0] != "9"@[0]);
    } else if j == 6 && i == 19 {
        assert("-"@[0] != "9"@[0]);
    } else if j == 7 && i == 19 {
        assert("ArrowLeft"@.len() != "9"@.len());
    } else if j == 8 && i == 19 {
        assert("ArrowRight"@.len() != "9"@.len());
    } else if j == 9 && i == 19 {
        assert("ArrowUp"@.len() != "9"@.len());
    } else if j == 10 && i == 19 {
        assert("ArrowDown"@.len() != "9"@.len());
    } else if j == 11 && i == 19 {
        assert("1"@[0] != "9"@[0]);
    } else if j == 12 && i == 19 {
        assert("2"@[0] != "9"@[0]);
    } else if j == 13 && i == 19 {
        assert("3"@[0] != "9"@[0]);
    } else if j == 14 && i == 19 {
        assert("4"@[0] != "9"@[0]);
    } else if j == 15 && i == 19 {
        assert("5"@[0] != "9"@[0]);
    } else if j == 16 && i == 19 {
        assert("6"@[0] != "9"@[0]);
    } else if j == 17 && i == 19 {
        assert("7"@[0] != "9"@[0]);
    } else if j == 18 && i == 19 {
        assert("8"@[0] != "9"@[0]);
    } else if j == 0 && i == 20 {
        assert("Escape"@.len() != "h"@.len());
    } else if j == 1 && i == 20 {
        assert("Escape"@.len() != "h"@.len());
    } else if j == 2 && i == 20 {
        assert("Delete"@.len() != "h"@.len());
    } else if j == 3 && i == 20 {
        assert("Backspace"@.len() != "h"@.len());
    } else if j == 4 && i == 20 {
        assert("+"@[0] != "h"@[0]);
    } else if j == 5 && i == 20 {
        assert("="@[0] != "h"@[0]);
    } else if j == 6 && i == 20 {
        assert("-"@[0] != "h"@[0]);
    } else if j == 7 && i == 20 {
        assert("ArrowLeft"@.len() != "h"@.len());
    } else if j == 8 && i == 20 {
        assert("ArrowRight"@.len() != "h"@.len());
    } else if j == 9 && i == 20 {
        assert("ArrowUp"@.len() != "h"@.len());
    } else if j == 10 && i == 20 {
        assert("ArrowDown"@.len() != "h"@.len());
    } else if j == 11 && i == 20 {
        assert("1"@[0] != "h"@[0]);
    } else if j == 12 && i == 20 {
        assert("2"@[0] != "h"@[0]);
    } else if j == 13 && i == 20 {
        assert("3"@[0] != "h"@[0]);
    } else if j == 14 && i == 20 {
        assert("4"@[0] != "h"@[0]);
    } else if j == 15 && i == 20 {
        assert("5"@[0] != "h"@[0]);
    } else if j == 16 && i == 20 {
        assert("6"@[0] != "h"@[0]);
    } else if j == 17 && i == 20 {
        assert("7"@[0] != "h"@[0]);
    } else if j == 18 && i == 20 {
        assert("8"@[0] != "h"@[0]);
    } else if j == 19 && i == 20 {
        assert("9"@[0] != "h"@[0]);
    } else if j == 0 && i == 21 {
        assert("Escape"@.len() != "m"@.len());
    } else if j == 1 && i == 21 {
        assert("Escape"@.len() != "m"@.len());
    } else if j == 2 && i == 21 {
        assert("Delete"@.len() != "m"@.len());
    } else if j == 3 && i == 21 {
        assert("Backspace"@.len() != "m"@.len());
    } else if j == 4 && i == 21 {
        assert("+"@[0] != "m"@[0]);
    } else if j == 5 && i == 21 {
        assert("="@[0] != "m"@[0]);
    } else if j == 6 && i == 21 {
        assert("-"@[0] != "m"@[0]);
    } else if j == 7 && i == 21 {
        assert("ArrowLeft"@.len() != "m"@.len());
    } else if j == 8 && i == 21 {
        assert("ArrowRight"@.len() != "m"@.len());
    } else if j == 9 && i == 21 {
        assert("ArrowUp"@.len() != "m"@.len());
    } else if j == 10 && i == 21 {
        assert("ArrowDown"@.len() != "m"@.len());
    } else if j == 11 && i == 21 {
        assert("1"@[0] != "m"@[0]);
    } else if j == 12 && i == 21 {
        assert("2"@[0] != "m"@[0]);
    } else if j == 13 && i == 21 {
        assert("3"@[0] != "m"@[0]);
    } else if j == 14 && i == 21 {
        assert("4"@[0] != "m"@[0]);
    } else if j == 15 && i == 21 {
        assert("5"@[0] != "m"@[0]);
    } else if j == 16 && i == 21 {
        assert("6"@[0] != "m"@[0]);
    } else if j == 17 && i == 21 {
        assert("7"@[0] != "m"@[0]);
    } else if j == 18 && i == 21 {
        assert("8"@[0] != "m"@[0]);
    } else if j == 19 && i == 21 {
        assert("9"@[0] != "m"@[0]);
    } else if j == 20 && i == 21 {
        assert("h"@[0] != "m"@[0]);
    } else if j == 0 && i == 22 {
        assert("Escape"@.len() != " "@.len());
    } else if j == 1 && i == 22 {
        assert("Escape"@.len() != " "@.len());
    } else if j == 2 && i == 22 {
        assert("Delete"@.len() != " "@.len());
    } else if j == 3 && i == 22 {
        assert("Backspace"@.len() != " "@.len());
    } else if j == 4 && i == 22 {
        assert("+"@[0] != " "@[0]);
    } else if j == 5 && i == 22 {
        assert("="@[0] != " "@[0]);
    } else if j == 6 && i == 22 {
        assert("-"@[0] != " "@[0]);
    } else if j == 7 && i == 22 {
        assert("ArrowLeft"@.len() != " "@.len());
    } else if j == 8 && i == 22 {
        assert("ArrowRight"@.len() != " "@.len());
    } else if j == 9 && i == 22 {
        assert("ArrowUp"@.len() != " "@.len());
    } else if j == 10 && i == 22 {
        assert("ArrowDown"@.len() != " "@.len());
    } else if j == 11 && i == 22 {
        assert("1"@[0] != " "@[0]);
    } else if j == 12 && i == 22 {
        assert("2"@[0] != " "@[0]);
    } else if j == 13 && i == 22 {
        assert("3"@[0] != " "@[0]);
    } else if j == 14 && i == 22 {
        assert("4"@[0] != " "@[0]);
    } else if j == 15 && i == 22 {
        assert("5"@[0] != " "@[0]);
    } else if j == 16 && i == 22 {
        assert("6"@[0] != " "@[0]);
    } else if j == 17 && i == 22 {
        assert("7"@[0] != " "@[0]);
    } else if j == 18 && i == 22 {
        assert("8"@[0] != " "@[0]);
    } else if j == 19 && i == 22 {
        assert("9"@[0] != " "@[0]);
    } else if j == 20 && i == 22 {
        assert("h"@[0] != " "@[0]);
    } else if j == 21 && i == 22 {
        assert("m"@[0] != " "@[0]);
    }
}

/// In a list that follows `table`, row `i` is triggered first by its key
/// when no earlier row has that key.
proof fn lemma_row_first(list: Seq<KeyboardShortcut<PresetCommand>>, table: Seq<PresetRow>, i: int)
    requires
        follows_table(list, table),
        0 <= i < table.len(),
        forall|j: int| 0 <= j < i ==> #[trigger] table[j].0 != table[i].0,
    ensures
        first_match(list, table[i].0, Modifiers { shift: false, ctrl: false, alt: false, meta: false }) == Some(i),
{
    let p = triggered_by::<PresetCommand>(table[i].0, Modifiers { shift: false, ctrl: false, alt: false, meta: false });
    assert forall|j: int| 0 <= j < i implies !p(#[trigger] list[j]) by {
        assert(table[j].0 != table[i].0);
    }
    assert(is_first_where(list, p, i));
    lemma_first_where_unique(list, p, i);
}

/// The default profile's other keys, with no modifier: Escape cancels the
/// drawing (its second binding, deselect, is shadowed), Delete and Backspace
/// delete the selection, `+` and `=` zoom in, `-` zooms out, the left and
/// right arrows pan 5 time units back and forward, the up and down arrows
/// pan 5 price units up and down.
pub proof fn law_default_other_bindings(list: Seq<KeyboardShortcut<PresetCommand>>)
    requires
        follows_table(list, default_table()),
    ensures
        ({
            let m = Modifiers { shift: false, ctrl: false, alt: false, meta: false };
            &&& first_match(list, "Escape"@, m) == Some(0int)
            &&& list[0].command == PresetCommand::CancelDrawing
            &&& list[1].command == PresetCommand::DeselectAll
            &&& first_match(list, "Delete"@, m) == Some(2int)
            &&& list[2].command == PresetCommand::DeleteSelected
            &&& first_match(list, "Backspace"@, m) == Some(3int)
            &&& list[3].command == PresetCommand::DeleteSelected
            &&& first_match(list, "+"@, m) == Some(4int)
            &&& list[4].command == PresetCommand::ZoomIn
            &&& first_match(list, "="@, m) == Some(5int)
            &&& list[5].command == PresetCommand::ZoomIn
            &&& first_match(list, "-"@, m) == Some(6int)
            &&& list[6].command == PresetCommand::ZoomOut
            &&& first_match(list, "ArrowLeft"@, m) == Some(7int)
            &&& list[7].command == PresetCommand::PanTime(-5i64)
            &&& first_match(list, "ArrowRight"@, m) == Some(8int)
            &&& list[8].command == PresetCommand::PanTime(5i64)
            &&& first_match(list, "ArrowUp"@, m) == Some(9int)
            &&& list[9].command == PresetCommand::PanPrice(5i8)
            &&& first_match(list, "ArrowDown"@, m) == Some(10int)
            &&& list[10].command == PresetCommand::PanPrice(-5i8)
        }),
{
    let t = default_table();
    assert(t.len() == 20);
    assert forall|i: int, j: int| 2 <= i <= 10 && 0 <= j < i implies #[trigger] t[j].0 != #[trigger] t[i].0 by {
        lemma_trading_keys_differ(i, j);
    }
    lemma_row_first(list, t, 0);
    lemma_row_first(list, t, 2);
    lemma_row_first(list, t, 3);
    lemma_row_first(list, t, 4);
    lemma_row_first(list, t, 5);
    lemma_row_first(list, t, 6);
    lemma_row_first(list, t, 7);
    lemma_row_first(list, t, 8);
    lemma_row_first(list, t, 9);
    lemma_row_first(list, t, 10);
}

/// The minimal profile binds Escape to cancelling the drawing and Delete to
/// deleting the selection, and nothing else: Backspace is unbound.
pub proof fn law_minimal_bindings(list: Seq<KeyboardShortcut<PresetCommand>>)
    requires
        follows_table(list, minimal_table()),
    ensures
        ({
            let m = Modifiers { shift: false, ctrl: false, alt: false, meta: false };
            &&& list.len() == 3
            &&& first_match(list, "Escape"@, m) == Some(0int)
            &&& list[0].command == PresetCommand::CancelDrawing
            &&& first_match(list, "Delete"@, m) == Some(2int)
            &&& list[2].command == PresetCommand::DeleteSelected
            &&& first_match(list, "Backspace"@, m) is None
        }),
{
    reveal_strlit("Escape");
    reveal_strlit("Delete");
    reveal_strlit("Backspace");
    reveal_strlit("+");
    reveal_strlit("=");
    reveal_strlit("-");
    reveal_strlit("ArrowLeft");
    reveal_strlit("ArrowRight");
    reveal_strlit("ArrowUp");
    reveal_strlit("ArrowDown");
    let t = minimal_table();
    let m = Modifiers { shift: false, ctrl: false, alt: false, meta: false };
    assert(t[0].0 == "Escape"@ && t[1].0 == "Escape"@ && t[2].0 == "Delete"@);
    assert("Escape"@[0] != "Delete"@[0]);
    lemma_row_first(list, t, 0);
    lemma_row_first(list, t, 2);
    let p = triggered_by::<PresetCommand>("Backspace"@, m);
    assert forall|j: int| 0 <= j < list.len() implies !p(#[trigger] list[j]) by {
        assert(list[j].key@ == t[j].0);
        if j == 0 || j == 1 {
            assert("Escape"@.len() != "Backspace"@.len());
        } else {
            assert("Delete"@[0] != "Backspace"@[0]);
        }
    }
    lemma_first_where_none(list, p);
}

/// The trading profile adds `h`, `m` and space, each of which asks for a
/// redraw, after the default rows.
pub proof fn law_trading_extra_bindings(list: Seq<KeyboardShortcut<PresetCommand>>)
    requires
        follows_table(list, trading_table()),
    ensures
        ({
            let m = Modifiers { shift: false, ctrl: false, alt: false, meta: false };
            &&& list.len() == 23
            &&& first_match(list, "h"@, m) == Some(20int)
            &&& list[20].command == PresetCommand::RequestRedraw
            &&& first_match(list, "m"@, m) == Some(21int)
            &&& list[21].command == PresetCommand::RequestRedraw
            &&& first_match(list, " "@, m) == Some(22int)
            &&& list[22].command == PresetCommand::RequestRedraw
        }),
{
    let t = trading_table();
    assert(t.len() == 23);
    assert forall|i: int, j: int| 20 <= i < 23 && 0 <= j < i implies #[trigger] t[j].0 != #[trigger] t[i].0 by {
        lemma_trading_keys_differ(i, j);
    }
    lemma_row_first(list, t, 20);
    lemma_row_first(list, t, 21);
    lemma_row_first(list, t, 22);
}

/// The first registered of two shortcuts with the same key and modifiers
/// wins: handling that key gives back the earlier one's command.
pub proof fn law_first_registered_wins<C>(
    list: Seq<KeyboardShortcut<C>>,
    a: KeyboardShortcut<C>,
    b: KeyboardShortcut<C>,
)
    requires
        a.key@ == b.key@,
        a.modifiers == b.modifiers,
        first_match(list, a.key@, a.modifiers) is None,
    ensures
        first_match(list.push(a).push(b), a.key@, a.modifiers) == Some(list.len() as int),
{
    let p = triggered_by::<C>(a.key@, a.modifiers);
    lemma_first_where_push(list, p, a);
    let l = list.push(a);
    assert(is_first_where(l.push(b), p, list.len() as int)) by {
        assert forall|j: int| 0 <= j < list.len() implies !p(#[trigger] l.push(b)[j]) by {
            assert(l.push(b)[j] == l[j]);
            assert(is_first_where(l, p, list.len() as int));
        }
    }
    lemma_first_where_unique(l.push(b), p, list.len() as int);
}

} // verus!
