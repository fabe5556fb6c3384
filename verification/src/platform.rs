//! Rules that the Windows integration applies to what it receives: window
//! messages, tray commands, throttled keyboard pulses, idle tick counts, and
//! the text encodings of the startup registry entry and kernel object names.

use vstd::prelude::*;

use crate::text::{append_decimal, decimal_text};

verus! {

pub const WM_KEYDOWN: u32 = 0x0100;
pub const WM_SYSKEYDOWN: u32 = 0x0104;
pub const WM_CONTEXTMENU: u32 = 0x007B;
pub const WM_LBUTTONUP: u32 = 0x0202;
pub const WM_LBUTTONDBLCLK: u32 = 0x0203;
pub const WM_RBUTTONUP: u32 = 0x0205;
pub const WTS_SESSION_LOCK: u32 = 0x7;
pub const WTS_SESSION_UNLOCK: u32 = 0x8;
pub const MF_STRING: u32 = 0x0;
pub const MF_CHECKED: u32 = 0x8;

/// Only key-down messages count as keyboard activity; nothing else about the
/// key is looked at.
pub fn is_key_down_message(message: u32) -> (down: bool)
    ensures
        down == (message == WM_KEYDOWN || message == WM_SYSKEYDOWN),
{
    message == WM_KEYDOWN || message == WM_SYSKEYDOWN
}

/// Minimum spacing of keyboard activity pulses, in milliseconds.
pub const MIN_NOTIFY_INTERVAL_MS: u64 = 50;

/// Remembers when the last keyboard pulse went out.
#[derive(Debug, Clone, Copy, PartialEq, Eq, Structural)]
pub struct NotifyThrottle {
    pub last_ms: Option<u64>,
}

/// Whether a key-down at `now_ms` may send a pulse after one sent at `last`.
pub open spec fn spec_pulse_allowed(last: Option<u64>, now_ms: u64) -> bool {
    match last {
        Some(prev) => now_ms >= prev + MIN_NOTIFY_INTERVAL_MS,
        None => true,
    }
}

impl NotifyThrottle {
    pub fn new() -> (t: NotifyThrottle)
        ensures
            t.last_ms is None,
    {
        NotifyThrottle { last_ms: None }
    }

    /// Whether a key-down at monotonic time `now_ms` sends a pulse: only
    /// when none went out in the last 50 ms. A pulse sent is remembered.
    pub fn should_notify(&mut self, now_ms: u64) -> (notify: bool)
        ensures
            notify == spec_pulse_allowed(old(self).last_ms, now_ms),
            notify ==> final(self).last_ms == Some(now_ms),
            !notify ==> *final(self) == *old(self),
    {
        let throttled = match self.last_ms {
            Some(prev) => {
                let elapsed = if now_ms >= prev {
                    now_ms - prev
                } else {
                    0
                };
                elapsed < MIN_NOTIFY_INTERVAL_MS
            },
            None => false,
        };
        if throttled {
            false
        } else {
            self.last_ms = Some(now_ms);
            true
        }
    }

    /// Forgets the last pulse, as when the watcher stops.
    pub fn clear(&mut self)
        ensures
            final(self).last_ms is None,
    {
        self.last_ms = None;
    }
}

/// Lock (true) or unlock (false) for a session-change notification code.
pub fn session_lock_event(code: u32) -> (locked: Option<bool>)
    ensures
        locked == (if code == WTS_SESSION_LOCK {
            Some(true)
        } else if code == WTS_SESSION_UNLOCK {
            Some(false)
        } else {
            None
        }),
{
    if code == WTS_SESSION_LOCK {
        Some(true)
    } else if code == WTS_SESSION_UNLOCK {
        Some(false)
    } else {
        None
    }
}

/// Right clicks and context-menu keys on the pet open its menu.
pub fn is_pet_context_message(message: u32) -> (opens: bool)
    ensures
        opens == (message == WM_RBUTTONUP || message == WM_CONTEXTMENU),
{
    message == WM_RBUTTONUP || message == WM_CONTEXTMENU
}

/// What a mouse event on the tray icon asks for.
#[derive(Debug, Clone, Copy, PartialEq, Eq, Structural)]
pub enum TrayNotification {
    ShowPet,
    OpenMenu,
}

pub fn tray_notification(event: u32) -> (n: Option<TrayNotification>)
    ensures
        n == (if event == WM_LBUTTONUP || event == WM_LBUTTONDBLCLK {
            Some(TrayNotification::ShowPet)
        } else if event == WM_RBUTTONUP || event == WM_CONTEXTMENU {
            Some(TrayNotification::OpenMenu)
        } else {
            None
        }),
{
    if event == WM_LBUTTONUP || event == WM_LBUTTONDBLCLK {
        Some(TrayNotification::ShowPet)
    } else if event == WM_RBUTTONUP || event == WM_CONTEXTMENU {
        Some(TrayNotification::OpenMenu)
    } else {
        None
    }
}

pub const CMD_SETTINGS: usize = 1000;
pub const CMD_SHOW: usize = 1001;
pub const CMD_HIDE: usize = 1002;
pub const CMD_SCALE_80: usize = 1010;
pub const CMD_SCALE_100: usize = 1011;
pub const CMD_SCALE_120: usize = 1012;
pub const CMD_TOGGLE_TOPMOST: usize = 1020;
pub const CMD_EXIT: usize = 1099;

/// A request from the tray icon, the pet's menu or the settings window.
/// Scales are percentages.
#[derive(Debug, Clone, Copy, PartialEq, Eq, Structural)]
pub enum TrayAction {
    Settings,
    Show,
    Hide,
    ToggleVisibility,
    ResetPosition,
    ToggleStartup,
    SetScale(u32),
    ToggleAlwaysOnTop,
    Exit,
}

pub open spec fn spec_action_for_command(command: usize) -> Option<TrayAction> {
    if command == CMD_SETTINGS {
        Some(TrayAction::Settings)
    } else if command == CMD_SHOW {
        Some(TrayAction::Show)
    } else if command == CMD_HIDE {
        Some(TrayAction::Hide)
    } else if command == CMD_SCALE_80 {
        Some(TrayAction::SetScale(80))
    } else if command == CMD_SCALE_100 {
        Some(TrayAction::SetScale(100))
    } else if command == CMD_SCALE_120 {
        Some(TrayAction::SetScale(120))
    } else if command == CMD_TOGGLE_TOPMOST {
        Some(TrayAction::ToggleAlwaysOnTop)
    } else if command == CMD_EXIT {
        Some(TrayAction::Exit)
    } else {
        None
    }
}

/// The action of a menu command id.
pub fn action_for_command(command: usize) -> (action: Option<TrayAction>)
    ensures
        action == spec_action_for_command(command),
{
    if command == CMD_SETTINGS {
        Some(TrayAction::Settings)
    } else if command == CMD_SHOW {
        Some(TrayAction::Show)
    } else if command == CMD_HIDE {
        Some(TrayAction::Hide)
    } else if command == CMD_SCALE_80 {
        Some(TrayAction::SetScale(80))
    } else if command == CMD_SCALE_100 {
        Some(TrayAction::SetScale(100))
    } else if command == CMD_SCALE_120 {
        Some(TrayAction::SetScale(120))
    } else if command == CMD_TOGGLE_TOPMOST {
        Some(TrayAction::ToggleAlwaysOnTop)
    } else if command == CMD_EXIT {
        Some(TrayAction::Exit)
    } else {
        None
    }
}

/// Menu item flags, with a check mark when `checked`.
pub fn checked_menu_flags(checked: bool) -> (flags: u32)
    ensures
        flags == (if checked {
            MF_STRING | MF_CHECKED
        } else {
            MF_STRING
        }),
{
    if checked {
        MF_STRING | MF_CHECKED
    } else {
        MF_STRING
    }
}

/// Milliseconds since the last input, from the two 32-bit tick counts; the
/// counter wraps around about every 49.7 days.
pub fn idle_elapsed_ms(now_ticks: u32, last_input_ticks: u32) -> (ms: u64)
    ensures
        ms == (if now_ticks >= last_input_ticks {
            now_ticks - last_input_ticks
        } else {
            now_ticks + 0x1_0000_0000 - last_input_ticks
        }),
{
    now_ticks.wrapping_sub(last_input_ticks) as u64
}

/// UTF-16 code units of one character.
pub open spec fn char_utf16(c: char) -> Seq<u16> {
    let u = c as u32;
    if u < 0x10000 {
        seq![u as u16]
    } else {
        let v = (u - 0x10000) as int;
        seq![(0xD800 + v / 0x400) as u16, (0xDC00 + v % 0x400) as u16]
    }
}

/// UTF-16 code units of a text.
pub open spec fn utf16(s: Seq<char>) -> Seq<u16>
    decreases s.len(),
{
    if s.len() == 0 {
        Seq::empty()
    } else {
        utf16(s.drop_last()) + char_utf16(s.last())
    }
}

fn push_char_utf16(out: &mut Vec<u16>, c: char)
    ensures
        final(out)@ == old(out)@ + char_utf16(c),
{
    let u = c as u32;
    if u < 0x10000 {
        out.push(u as u16);
    } else {
        let v = u - 0x10000;
        assert(v < 0x100000);
        out.push((0xD800 + v / 0x400) as u16);
        out.push((0xDC00 + v % 0x400) as u16);
    }
    assert(final(out)@ =~= old(out)@ + char_utf16(c));
}

/// The UTF-16 encoding of `s`.
pub fn utf16_units(s: &str) -> (units: Vec<u16>)
    ensures
        units@ == utf16(s@),
{
    let len = s.unicode_len();
    let mut units: Vec<u16> = Vec::new();
    let mut i: usize = 0;
    while i < len
        invariant
            len == s@.len(),
            i <= len,
            units@ == utf16(s@.take(i as int)),
        decreases len - i,
    {
        assert(s@.take(i + 1).drop_last() =~= s@.take(i as int));
        push_char_utf16(&mut units, s.get_char(i));
        i = i + 1;
    }
    assert(s@.take(len as int) =~= s@);
    units
}

/// `value` as a NUL-terminated UTF-16 string, as Windows object names are passed.
pub fn wide_null(value: &str) -> (units: Vec<u16>)
    ensures
        units@ == utf16(value@).push(0),
{
    let mut units = utf16_units(value);
    units.push(0);
    units
}

/// Copies the UTF-16 form of `value` into a fixed-size buffer: the buffer
/// is cleared, and at most all but its last unit are written, so that it
/// stays NUL-terminated.
pub fn write_utf16(target: &mut Vec<u16>, value: &str)
    ensures
        final(target)@.len() == old(target)@.len(),
        forall|i: int| 0 <= i < old(target)@.len() ==> #[trigger] final(target)@[i] == (if i
            < old(target)@.len() - 1 && i < utf16(value@).len() {
            utf16(value@)[i]
        } else {
            0u16
        }),
{
    let units = utf16_units(value);
    let n = target.len();
    let capacity: usize = if n == 0 {
        0
    } else {
        n - 1
    };
    let mut i: usize = 0;
    while i < n
        invariant
            n == target@.len(),
            n == old(target)@.len(),
            units@ == utf16(value@),
            capacity == (if n == 0 { 0 } else { n - 1 }),
            i <= n,
            forall|j: int| 0 <= j < i ==> #[trigger] target@[j] == (if j < n - 1 && j < units@.len() {
                units@[j]
            } else {
                0u16
            }),
        decreases n - i,
    {
        let unit: u16 = if i < capacity && i < units.len() {
            units[i]
        } else {
            0
        };
        target.set(i, unit);
        i = i + 1;
    }
}

/// Little-endian bytes of UTF-16 code units, as the registry stores strings.
pub open spec fn le_bytes(units: Seq<u16>) -> Seq<u8>
    decreases units.len(),
{
    if units.len() == 0 {
        Seq::empty()
    } else {
        le_bytes(units.drop_last()) + seq![(units.last() % 256) as u8, (units.last() / 256) as u8]
    }
}

/// The quoted command line that starts `executable` at sign-in.
pub open spec fn spec_startup_command(executable: Seq<char>) -> Seq<char> {
    "\""@ + executable + "\""@
}

pub fn startup_command(executable: &str) -> (command: String)
    ensures
        command@ == spec_startup_command(executable@),
{
    let mut command = String::from_str("\"");
    command.append(executable);
    command.append("\"");
    command
}

/// The bytes of a registry string value holding `command`.
pub fn registry_string_bytes(command: &str) -> (bytes: Vec<u8>)
    ensures
        bytes@ == le_bytes(utf16(command@).push(0)),
{
    let units = wide_null(command);
    let mut bytes: Vec<u8> = Vec::new();
    let mut i: usize = 0;
    while i < units.len()
        invariant
            i <= units@.len(),
            bytes@ == le_bytes(units@.take(i as int)),
        decreases units.len() - i,
    {
        assert(units@.take(i + 1).drop_last() =~= units@.take(i as int));
        let u = units[i];
        bytes.push((u % 256) as u8);
        bytes.push((u / 256) as u8);
        assert(bytes@ =~= le_bytes(units@.take(i + 1)));
        i = i + 1;
    }
    assert(units@.take(units@.len() as int) =~= units@);
    bytes
}

/// Code units read back from registry bytes: pairs of little-endian bytes,
/// up to the first NUL unit; a trailing odd byte is ignored.
pub open spec fn units_from_le(bytes: Seq<u8>, k: int) -> Seq<u16>
    decreases k,
{
    if k <= 0 {
        Seq::empty()
    } else {
        let prev = units_from_le(bytes, k - 1);
        let u = (bytes[2 * (k - 1)] + 256 * bytes[2 * (k - 1) + 1]) as u16;
        if prev.len() < k - 1 {
            prev
        } else if u == 0 {
            prev
        } else {
            prev.push(u)
        }
    }
}

pub open spec fn spec_registry_units(bytes: Seq<u8>) -> Seq<u16> {
    units_from_le(bytes, (bytes.len() / 2) as int)
}

pub fn registry_units(bytes: &[u8]) -> (units: Vec<u16>)
    ensures
        units@ == spec_registry_units(bytes@),
{
    let n = bytes.len();
    let pairs = n / 2;
    let mut units: Vec<u16> = Vec::new();
    let mut k: usize = 0;
    let mut stopped = false;
    while k < pairs
        invariant
            n == bytes@.len(),
            pairs == n / 2,
            k <= pairs,
            units@ == units_from_le(bytes@, k as int),
            stopped == (units@.len() < k),
        decreases pairs - k,
    {
        proof {
            lemma_units_len(bytes@, k as int);
        }
        assert(2 * k + 1 < bytes@.len()) by (nonlinear_arith)
            requires
                k < pairs,
                pairs == n / 2,
                n == bytes@.len(),
        ;
        let i: usize = 2 * k;
        let u: u16 = (bytes[i] as u16) + 256 * (bytes[i + 1] as u16);
        if !stopped {
            if u == 0 {
                stopped = true;
            } else {
                units.push(u);
            }
        }
        k = k + 1;
    }
    units
}

proof fn lemma_units_len(bytes: Seq<u8>, k: int)
    requires
        k >= 0,
    ensures
        units_from_le(bytes, k).len() <= k,
    decreases k,
{
    if k > 0 {
        lemma_units_len(bytes, k - 1);
    }
}

/// A failed Win32 call: what was attempted and the error code.
#[derive(Debug, Clone)]
pub struct Win32Error {
    pub action: String,
    pub code: u32,
}

impl Win32Error {
    pub open spec fn spec_message(&self) -> Seq<char> {
        self.action@ + " failed with Win32 error "@ + decimal_text(self.code as nat)
    }

    pub fn message(&self) -> (text: String)
        ensures
            text@ == self.spec_message(),
    {
        let mut text = String::from_str(self.action.as_str());
        text.append(" failed with Win32 error ");
        append_decimal(&mut text, self.code as u64);
        text
    }
}

/// Status 0 is success; any other status is an error naming `action`.
pub fn win32_status(code: u32, action: &str) -> (r: Result<(), Win32Error>)
    ensures
        code == 0 <==> r is Ok,
        r matches Err(e) ==> e.code == code && e.action@ == action@,
{
    if code == 0 {
        Ok(())
    } else {
        Err(Win32Error { action: String::from_str(action), code })
    }
}

/// Code 2 (file not found) when deleting the startup entry means it was
/// already gone.
pub const ERROR_FILE_NOT_FOUND: u32 = 2;

/// Deleting the startup entry succeeds when it was deleted or was not there.
pub fn delete_status(code: u32) -> (r: Result<(), Win32Error>)
    ensures
        (code == 0 || code == ERROR_FILE_NOT_FOUND) <==> r is Ok,
        r matches Err(e) ==> e.code == code && e.action@ == "delete Sena startup entry"@,
{
    if code == 0 || code == ERROR_FILE_NOT_FOUND {
        Ok(())
    } else {
        win32_status(code, "delete Sena startup entry")
    }
}

/// The startup command is the executable path between double quotes.
pub proof fn law_startup_command_is_quoted(executable: Seq<char>)
    ensures
        spec_startup_command(executable).len() == executable.len() + 2,
        spec_startup_command(executable).subrange(1, executable.len() + 1int) == executable,
{
    reveal_strlit("\"");
    assert(spec_startup_command(executable).subrange(1, executable.len() + 1int) =~= executable);
}

/// Every menu command id maps to its own action.
pub proof fn law_tray_commands_distinct(a: usize, b: usize)
    requires
        a != b,
        spec_action_for_command(a) is Some,
    ensures
        spec_action_for_command(a) != spec_action_for_command(b),
{
}

proof fn lemma_le_bytes(units: Seq<u16>)
    ensures
        le_bytes(units).len() == 2 * units.len(),
        forall|j: int|
            0 <= j < units.len() ==> le_bytes(units)[2 * j] == (#[trigger] units[j]) % 256
                && le_bytes(units)[2 * j + 1] == units[j] / 256,
    decreases units.len(),
{
    if units.len() > 0 {
        let init = units.drop_last();
        lemma_le_bytes(init);
        assert forall|j: int| 0 <= j < units.len() implies le_bytes(units)[2 * j] == (#[trigger] units[j]) % 256
            && le_bytes(units)[2 * j + 1] == units[j] / 256 by {
            if j < units.len() - 1 {
                assert(init[j] == units[j]);
            }
        }
    }
}

/// Every character is a Unicode scalar value, as every `char` is.
pub open spec fn valid_chars(s: Seq<char>) -> bool {
    forall|i: int|
        0 <= i < s.len() ==> (#[trigger] s[i]) as u32 <= 0x10FFFF && !(0xD800 <= s[i] as u32
            <= 0xDFFF)
}

proof fn lemma_utf16_nonzero(s: Seq<char>)
    requires
        valid_chars(s),
        forall|i: int| 0 <= i < s.len() ==> (#[trigger] s[i]) as u32 != 0,
    ensures
        forall|j: int| 0 <= j < utf16(s).len() ==> #[trigger] utf16(s)[j] != 0,
    decreases s.len(),
{
    if s.len() > 0 {
        let init = s.drop_last();
        assert forall|i: int| 0 <= i < init.len() implies (#[trigger] init[i]) as u32 != 0 && init[i] as u32 <= 0x10FFFF && !(0xD800 <= init[i] as u32 <= 0xDFFF) by {
            assert(init[i] == s[i]);
        }
        lemma_utf16_nonzero(init);
        let c = s.last();
        assert(c == s[s.len() - 1]);
        assert((c as u32) != 0);
        let tail = char_utf16(c);
        let cu = c as u32;
        assert(cu < 0x10000 && cu != 0 ==> (cu as u16) != 0) by (bit_vector);
        if cu >= 0x10000 {
            assert(cu <= 0x10FFFF);
            let v = (cu - 0x10000) as int;
            assert(0 <= v < 0x100000);
            assert(0 <= v / 0x400 < 0x400) by (nonlinear_arith)
                requires
                    0 <= v < 0x100000,
            ;
            assert(0 <= v % 0x400 < 0x400);
            let hi = (0xD800 + v / 0x400) as u32;
            let lo = (0xDC00 + v % 0x400) as u32;
            assert(0xD800 <= hi < 0x10000 ==> (hi as u16) != 0) by (bit_vector);
            assert(0xDC00 <= lo < 0x10000 ==> (lo as u16) != 0) by (bit_vector);
        }
        assert forall|j: int| 0 <= j < tail.len() implies #[trigger] tail[j] != 0 by {
        }
        assert forall|j: int| 0 <= j < utf16(s).len() implies #[trigger] utf16(s)[j] != 0 by {
            if j < utf16(init).len() {
                assert(utf16(s)[j] == utf16(init)[j]);
            } else {
                assert(utf16(s)[j] == tail[j - utf16(init).len()]);
            }
        }
    }
}

proof fn lemma_units_prefix(w: Seq<u16>, k: int)
    requires
        0 <= k < w.len(),
        forall|j: int| 0 <= j < k ==> #[trigger] w[j] != 0,
    ensures
        units_from_le(le_bytes(w), k) == w.take(k),
    decreases k,
{
    lemma_le_bytes(w);
    if k > 0 {
        lemma_units_prefix(w, k - 1);
        let b = le_bytes(w);
        let u = w[k - 1];
        assert(b[2 * (k - 1)] == u % 256);
        assert(b[2 * (k - 1) + 1] == u / 256);
        assert((b[2 * (k - 1)] + 256 * b[2 * (k - 1) + 1]) as u16 == u);
        assert(w.take(k) =~= w.take(k - 1).push(u));
    } else {
        assert(w.take(0) =~= Seq::<u16>::empty());
    }
}

/// Reading back the startup entry that was written gives the command that
/// was written, as long as the command holds no NUL character.
pub proof fn law_registry_round_trip(command: Seq<char>)
    requires
        valid_chars(command),
        forall|i: int| 0 <= i < command.len() ==> (#[trigger] command[i]) as u32 != 0,
    ensures
        spec_registry_units(le_bytes(utf16(command).push(0))) == utf16(command),
{
    let u = utf16(command);
    let w = u.push(0);
    lemma_utf16_nonzero(command);
    lemma_le_bytes(w);
    assert forall|j: int| 0 <= j < u.len() implies #[trigger] w[j] != 0 by {
        assert(w[j] == u[j]);
    }
    lemma_units_prefix(w, u.len() as int);
    let b = le_bytes(w);
    let k = u.len() as int;
    assert(b.len() / 2 == k + 1);
    assert(w.take(k) =~= u);
    assert(b[2 * k] == 0 && b[2 * k + 1] == 0);
    lemma_units_len(b, k);
}

/// Calls `String::from_utf16`, which decodes UTF-16 and fails when the units
/// hold an unpaired surrogate. The contract claims that a decoded text
/// encodes back to the units, and that decoding fails only when no text of
/// Unicode scalars encodes to them.
#[verifier::external_body]
fn string_from_utf16(units: &[u16]) -> (text: Option<String>)
    ensures
        text matches Some(t) ==> utf16(t@) == units@ && valid_chars(t@),
        text is None ==> forall|t: Seq<char>| valid_chars(t) ==> utf16(t) != units@,
{
    String::from_utf16(units).ok()
}

/// The command stored in a registry string value: its units up to the first
/// NUL, decoded from UTF-16; None when the value is shorter than one unit
/// (two bytes) or its units are not valid UTF-16.
pub fn startup_command_from_registry(bytes: &[u8]) -> (command: Option<String>)
    ensures
        bytes@.len() < 2 ==> command is None,
        command matches Some(c) ==> utf16(c@) == spec_registry_units(bytes@) && valid_chars(c@),
        bytes@.len() >= 2 && command is None ==> forall|t: Seq<char>|
            valid_chars(t) ==> utf16(t) != spec_registry_units(bytes@),
{
    if bytes.len() < 2 {
        return None;
    }
    let units = registry_units(bytes);
    string_from_utf16(units.as_slice())
}

/// The registry bytes hold at least one unit and decode to some text.
pub open spec fn spec_holds_text(bytes: Seq<u8>) -> bool {
    &&& bytes.len() >= 2
    &&& exists|t: Seq<char>| valid_chars(t) && utf16(t) == spec_registry_units(bytes)
}

/// Whether Sena starts at sign-in: the startup registry value exists as a
/// string (`registry_value`, its bytes) and holds valid UTF-16.
pub fn startup_enabled(registry_value: Option<&[u8]>) -> (enabled: bool)
    ensures
        enabled == (registry_value matches Some(bytes) && spec_holds_text(bytes@)),
{
    match registry_value {
        Some(bytes) => {
            let decoded = startup_command_from_registry(bytes);
            match decoded {
                Some(c) => {
                    assert(valid_chars(c@) && utf16(c@) == spec_registry_units(bytes@));
                    true
                },
                None => false,
            }
        },
        None => false,
    }
}

/// Two pulses are always at least 50 ms apart on the monotonic clock.
pub proof fn law_pulses_spaced(last: u64, now_ms: u64)
    requires
        spec_pulse_allowed(Some(last), now_ms),
    ensures
        now_ms - last >= MIN_NOTIFY_INTERVAL_MS,
{
}

/// Once a startup command (without NUL characters) has been written, the
/// startup entry reads back as enabled.
pub proof fn law_written_startup_entry_is_enabled(command: Seq<char>)
    requires
        valid_chars(command),
        forall|i: int| 0 <= i < command.len() ==> (#[trigger] command[i]) as u32 != 0,
    ensures
        spec_holds_text(le_bytes(utf16(command).push(0))),
{
    law_registry_round_trip(command);
    lemma_le_bytes(utf16(command).push(0));
}

} // verus!
