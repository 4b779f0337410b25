//! Command-line and interface choices: which command the arguments name,
//! which telephony cache a choice means, whether a flash request is
//! complete, and the activity log.

use vstd::prelude::*;
use crate::text::{ascii_lowercase, eq_ignore_ascii_case, decimal, push_char, push_decimal, push_str, str_eq, string_of, trim, trimmed};

verus! {

/// `args[1]` is `--probe`: `Some` of whether it is the only argument.
pub open spec fn probe_command_spec(args: Seq<Seq<char>>) -> Option<bool> {
    if args.len() > 1 && args[1] == "--probe"@ {
        Some(args.len() == 2)
    } else {
        None
    }
}

/// Recognises the handshake probe: `None` unless the first argument after
/// the program name is `--probe`, else whether nothing follows it.
pub fn probe_command(args: &Vec<String>) -> (r: Option<bool>)
    ensures
        r == probe_command_spec(args@.map_values(|s: String| s@)),
{
    let ghost av = args@.map_values(|s: String| s@);
    if args.len() > 1 && str_eq(args[1].as_str(), "--probe") {
        assert(av[1] == args@[1]@);
        Some(args.len() == 2)
    } else {
        proof {
            if args@.len() > 1 {
                assert(av[1] == args@[1]@);
            }
        }
        None
    }
}

/// What the program is asked to do.
pub enum Command {
    /// Run the handshake probe; `valid` is false when extra arguments follow.
    Probe { valid: bool },
    /// Flash the artwork at `image_path` onto the card `card_hash`.
    Flash { card_hash: String, image_path: String },
    /// Flash the passcode theme at `theme_path`.
    Passcode { theme_path: String, telephony: Option<String>, language: Option<String> },
    /// Open the window.
    Gui,
}

/// The command named by the arguments: `--probe`, or the probe switched on
/// by the environment, before `--flash <hash> <image>`, before
/// `--passcode <theme> [telephony] [language]`; otherwise the window.
pub open spec fn command_ok(c: Command, args: Seq<Seq<char>>, env_probe: bool) -> bool {
    if probe_command_spec(args) is Some {
        c == Command::Probe { valid: probe_command_spec(args).unwrap() }
    } else if env_probe {
        c == Command::Probe { valid: true }
    } else if args.len() >= 4 && args[1] == "--flash"@ {
        c matches Command::Flash { card_hash, image_path } && card_hash@ == args[2] && image_path@
            == args[3]
    } else if args.len() >= 3 && args[1] == "--passcode"@ {
        c matches Command::Passcode { theme_path, telephony, language } && theme_path@ == args[2]
            && (if args.len() > 3 {
            telephony matches Some(t) && t@ == args[3]
        } else {
            telephony is None
        }) && (if args.len() > 4 {
            language matches Some(l) && l@ == args[4]
        } else {
            language is None
        })
    } else {
        c is Gui
    }
}

/// The command named by the arguments and the probe switch of the environment.
pub fn parse_command(args: &Vec<String>, env_probe: bool) -> (r: Command)
    ensures
        command_ok(r, args@.map_values(|s: String| s@), env_probe),
{
    let ghost av = args@.map_values(|s: String| s@);
    proof {
        if args@.len() > 1 {
            assert(av[1] == args@[1]@);
        }
        if args@.len() > 2 {
            assert(av[2] == args@[2]@);
        }
        if args@.len() > 3 {
            assert(av[3] == args@[3]@);
        }
        if args@.len() > 4 {
            assert(av[4] == args@[4]@);
        }
    }
    match probe_command(args) {
        Some(valid) => {
            return Command::Probe { valid };
        },
        None => {},
    }
    if env_probe {
        return Command::Probe { valid: true };
    }
    if args.len() >= 4 && str_eq(args[1].as_str(), "--flash") {
        return Command::Flash { card_hash: args[2].clone(), image_path: args[3].clone() };
    }
    if args.len() >= 3 && str_eq(args[1].as_str(), "--passcode") {
        let telephony = if args.len() > 3 {
            Some(args[3].clone())
        } else {
            None
        };
        let language = if args.len() > 4 {
            Some(args[4].clone())
        } else {
            None
        };
        return Command::Passcode { theme_path: args[2].clone(), telephony, language };
    }
    Command::Gui
}

/// The telephony cache a command-line choice means: `8`, `9` or `10`, or the
/// full cache name; anything else means `TelephonyUI-10`.
pub open spec fn cli_telephony_spec(choice: Option<Seq<char>>) -> Seq<char> {
    match choice {
        Some(c) => if c == "8"@ || c == "TelephonyUI-8"@ {
            "TelephonyUI-8"@
        } else if c == "9"@ || c == "TelephonyUI-9"@ {
            "TelephonyUI-9"@
        } else {
            "TelephonyUI-10"@
        },
        None => "TelephonyUI-10"@,
    }
}

proof fn lemma_telephony_names()
    ensures
        "TelephonyUI-"@ + "8"@ == "TelephonyUI-8"@,
        "TelephonyUI-"@ + "9"@ == "TelephonyUI-9"@,
        "TelephonyUI-"@ + "10"@ == "TelephonyUI-10"@,
        "8"@ != "9"@,
        "8"@ != "TelephonyUI-9"@,
        "TelephonyUI-8"@ != "9"@,
        "TelephonyUI-8"@ != "TelephonyUI-9"@,
        "10"@ != "8"@ && "10"@ != "9"@ && "10"@ != "TelephonyUI-8"@ && "10"@ != "TelephonyUI-9"@,
        "TelephonyUI-10"@ != "8"@ && "TelephonyUI-10"@ != "9"@ && "TelephonyUI-10"@ != "TelephonyUI-8"@
            && "TelephonyUI-10"@ != "TelephonyUI-9"@,
{
    reveal_strlit("TelephonyUI-");
    reveal_strlit("8");
    reveal_strlit("9");
    reveal_strlit("10");
    reveal_strlit("TelephonyUI-8");
    reveal_strlit("TelephonyUI-9");
    reveal_strlit("TelephonyUI-10");
    assert("TelephonyUI-"@ + "8"@ =~= "TelephonyUI-8"@);
    assert("TelephonyUI-"@ + "9"@ =~= "TelephonyUI-9"@);
    assert("TelephonyUI-"@ + "10"@ =~= "TelephonyUI-10"@);
    assert("8"@[0] != "9"@[0]);
    assert("TelephonyUI-8"@[12] != "TelephonyUI-9"@[12]);
    assert("10"@[1] != "8"@[0] || "10"@.len() != "8"@.len());
    assert("TelephonyUI-10"@.len() != "TelephonyUI-9"@.len());
    assert("TelephonyUI-10"@.len() != "TelephonyUI-8"@.len());
}

/// The short command-line choices name their caches, `d` naming
/// `TelephonyUI-d`; a full cache name names itself; no choice means the
/// iOS 18 cache.
pub proof fn lemma_cli_telephony_names()
    ensures
        cli_telephony_spec(Some("8"@)) == "TelephonyUI-8"@,
        cli_telephony_spec(Some("9"@)) == "TelephonyUI-9"@,
        cli_telephony_spec(Some("10"@)) == "TelephonyUI-10"@,
        cli_telephony_spec(Some("TelephonyUI-8"@)) == "TelephonyUI-8"@,
        cli_telephony_spec(Some("TelephonyUI-9"@)) == "TelephonyUI-9"@,
        cli_telephony_spec(None) == "TelephonyUI-10"@,
{
    lemma_telephony_names();
}

/// The telephony cache named on the command line.
pub fn cli_telephony(choice: Option<&str>) -> (r: &'static str)
    ensures
        r@ == cli_telephony_spec(
            match choice {
                Some(c) => Some(c@),
                None => None,
            },
        ),
        choice is Some && (choice.unwrap()@ == "8"@ || choice.unwrap()@ == "9"@ || choice.unwrap()@
            == "10"@) ==> r@ == "TelephonyUI-"@ + choice.unwrap()@,
        choice is Some && (choice.unwrap()@ == "TelephonyUI-8"@ || choice.unwrap()@ == "TelephonyUI-9"@
            || choice.unwrap()@ == "TelephonyUI-10"@) ==> r@ == choice.unwrap()@,
        choice is None ==> r@ == "TelephonyUI-10"@,
{
    proof {
        lemma_telephony_names();
    }
    match choice {
        Some(c) => if str_eq(c, "8") || str_eq(c, "TelephonyUI-8") {
            "TelephonyUI-8"
        } else if str_eq(c, "9") || str_eq(c, "TelephonyUI-9") {
            "TelephonyUI-9"
        } else {
            "TelephonyUI-10"
        },
        None => "TelephonyUI-10",
    }
}

/// The telephony cache a window choice means: `TelephonyUI-8` or
/// `TelephonyUI-9` as named, anything else (the automatic choice among
/// them) `TelephonyUI-10`.
pub open spec fn telephony_target_spec(choice: Seq<char>) -> Seq<char> {
    if choice == "TelephonyUI-9"@ {
        "TelephonyUI-9"@
    } else if choice == "TelephonyUI-8"@ {
        "TelephonyUI-8"@
    } else {
        "TelephonyUI-10"@
    }
}

/// The telephony cache chosen in the window.
pub fn telephony_target(choice: &str) -> (r: &'static str)
    ensures
        r@ == telephony_target_spec(choice@),
        choice@ == "TelephonyUI-8"@ || choice@ == "TelephonyUI-9"@ || choice@ == "TelephonyUI-10"@
            ==> r@ == choice@,
        choice@ == "Auto (TelephonyUI-10)"@ ==> r@ == "TelephonyUI-10"@,
{
    proof {
        lemma_telephony_names();
        reveal_strlit("Auto (TelephonyUI-10)");
        reveal_strlit("TelephonyUI-9");
        reveal_strlit("TelephonyUI-8");
        assert("Auto (TelephonyUI-10)"@[0] != "TelephonyUI-9"@[0]);
        assert("Auto (TelephonyUI-10)"@[0] != "TelephonyUI-8"@[0]);
    }
    if str_eq(choice, "TelephonyUI-9") {
        "TelephonyUI-9"
    } else if str_eq(choice, "TelephonyUI-8") {
        "TelephonyUI-8"
    } else {
        "TelephonyUI-10"
    }
}

/// The decimal spelling of `n`, with zeros in front up to `width` characters.
pub open spec fn padded(n: nat, width: nat) -> Seq<char> {
    let d = decimal(n);
    if d.len() < width {
        Seq::new((width - d.len()) as nat, |i: int| '0') + d
    } else {
        d
    }
}

fn push_padded(out: &mut String, n: u64, width: usize)
    requires
        width <= 3,
    ensures
        final(out)@ == old(out)@ + padded(n as nat, width as nat),
{
    let mut digits = String::new();
    push_decimal(&mut digits, n);
    let len = digits.as_str().unicode_len();
    let ghost start = old(out)@;
    if len < width {
        let mut k: usize = 0;
        while k < width - len
            invariant
                k <= width - len,
                len < width,
                len == decimal(n as nat).len(),
                out@ == start + Seq::new(k as nat, |i: int| '0'),
            decreases width - len - k,
        {
            push_char(out, '0');
            k = k + 1;
            assert(out@ =~= start + Seq::new(k as nat, |i: int| '0'));
        }
    }
    push_str(out, digits.as_str());
    assert(out@ =~= start + padded(n as nat, width as nat));
}

/// The time of day spelled `hh:mm:ss.mmm`.
pub open spec fn timestamp_spec(hour: nat, minute: nat, second: nat, millis: nat) -> Seq<char> {
    padded(hour, 2) + seq![':'] + padded(minute, 2) + seq![':'] + padded(second, 2) + seq!['.']
        + padded(millis, 3)
}

/// The log timestamp of a local time of day.
pub fn current_timestamp(hour: u16, minute: u16, second: u16, millis: u16) -> (r: String)
    ensures
        r@ == timestamp_spec(hour as nat, minute as nat, second as nat, millis as nat),
{
    let mut out = String::new();
    push_padded(&mut out, hour as u64, 2);
    push_char(&mut out, ':');
    push_padded(&mut out, minute as u64, 2);
    push_char(&mut out, ':');
    push_padded(&mut out, second as u64, 2);
    push_char(&mut out, '.');
    push_padded(&mut out, millis as u64, 3);
    out
}

/// Most lines the activity log keeps.
pub const MAX_LOG_LINES: usize = 1000;

/// The log after adding `line`: the oldest line goes when there are more
/// than `MAX_LOG_LINES`.
pub open spec fn log_after(logs: Seq<Seq<char>>, line: Seq<char>) -> Seq<Seq<char>> {
    let grown = logs.push(line);
    if grown.len() > 1000 {
        grown.remove(0)
    } else {
        grown
    }
}

/// Adds `[timestamp] text` to the activity log.
pub fn add_log(logs: &mut Vec<String>, timestamp: &str, text: &str)
    ensures
        final(logs)@.map_values(|s: String| s@) == log_after(
            old(logs)@.map_values(|s: String| s@),
            seq!['['] + timestamp@ + seq![']', ' '] + text@,
        ),
{
    let mut line = String::new();
    push_char(&mut line, '[');
    push_str(&mut line, timestamp);
    push_char(&mut line, ']');
    push_char(&mut line, ' ');
    push_str(&mut line, text);
    let ghost before = old(logs)@.map_values(|s: String| s@);
    let ghost l = line@;
    assert(l =~= seq!['['] + timestamp@ + seq![']', ' '] + text@);
    logs.push(line);
    assert(logs@.map_values(|s: String| s@) =~= before.push(l));
    if logs.len() > MAX_LOG_LINES {
        let ghost grown = logs@.map_values(|s: String| s@);
        logs.remove(0);
        assert(logs@.map_values(|s: String| s@) =~= grown.remove(0));
    }
}

/// The activity log never holds more than `MAX_LOG_LINES` lines once it
/// holds no more than that, and the newest line is always the last.
pub proof fn lemma_log_bounded(logs: Seq<Seq<char>>, line: Seq<char>)
    requires
        logs.len() <= 1000,
    ensures
        log_after(logs, line).len() <= 1000,
        log_after(logs, line).last() == line,
{
}

/// Why a card-skin flash cannot start.
#[derive(Clone, Copy, PartialEq, Eq, Structural, Debug)]
pub enum FlashBlocker {
    /// No connected iPhone is selected.
    NoDevice,
    /// The card hash is empty.
    NoCardHash,
    /// No artwork is prepared.
    NoArtwork,
}

/// Which prepared artwork a flash writes.
#[derive(Clone, Copy, PartialEq, Eq, Structural, Debug)]
pub enum ArtChoice {
    /// The prepared PNG skin.
    Png,
    /// The loaded PDF artwork.
    Pdf,
}

/// Whether a card-skin flash can start, and with what: it needs a device,
/// a card hash that is not blank, and artwork; a prepared PNG is preferred
/// to a PDF. The hash is used trimmed.
pub open spec fn flash_request_spec(has_device: bool, card_hash: Seq<char>, has_png: bool, has_pdf: bool) -> Result<(Seq<char>, ArtChoice), FlashBlocker> {
    if !has_device {
        Err(FlashBlocker::NoDevice)
    } else if trimmed(card_hash).len() == 0 {
        Err(FlashBlocker::NoCardHash)
    } else if has_png {
        Ok((trimmed(card_hash), ArtChoice::Png))
    } else if has_pdf {
        Ok((trimmed(card_hash), ArtChoice::Pdf))
    } else {
        Err(FlashBlocker::NoArtwork)
    }
}

/// Checks a card-skin flash request.
pub fn check_flash_request(has_device: bool, card_hash: &str, has_png: bool, has_pdf: bool) -> (r: Result<(String, ArtChoice), FlashBlocker>)
    ensures
        match (r, flash_request_spec(has_device, card_hash@, has_png, has_pdf)) {
            (Ok((h, a)), Ok((eh, ea))) => h@ == eh && a == ea,
            (Err(e), Err(ee)) => e == ee,
            _ => false,
        },
{
    if !has_device {
        return Err(FlashBlocker::NoDevice);
    }
    let hash = trim(card_hash);
    if hash.as_str().unicode_len() == 0 {
        return Err(FlashBlocker::NoCardHash);
    }
    if has_png {
        Ok((hash, ArtChoice::Png))
    } else if has_pdf {
        Ok((hash, ArtChoice::Pdf))
    } else {
        Err(FlashBlocker::NoArtwork)
    }
}


/// Why the handshake probe has no device to talk to.
#[derive(Clone, Copy, PartialEq, Eq, Structural, Debug)]
pub enum ProbeDeviceError {
    /// No device is connected over USB.
    NoUsbDevice,
    /// More than one device is connected over USB.
    MultipleUsbDevices,
}

/// The connection is USB, in any case.
pub open spec fn is_usb(connection_type: Seq<char>) -> bool {
    ascii_lowercase(connection_type) == ascii_lowercase("USB"@)
}

/// The device the probe talks to, given each connected device's connection
/// type: the only USB device, refused when there is none or more than one.
pub fn pick_probe_device(connection_types: &Vec<String>) -> (r: Result<usize, ProbeDeviceError>)
    ensures
        match r {
            Ok(i) => i < connection_types@.len() && is_usb(connection_types@[i as int]@) && forall|j: int|
                0 <= j < connection_types@.len() && j != i ==> !is_usb(
                    #[trigger] connection_types@[j]@,
                ),
            Err(ProbeDeviceError::NoUsbDevice) => forall|j: int|
                0 <= j < connection_types@.len() ==> !is_usb(#[trigger] connection_types@[j]@),
            Err(ProbeDeviceError::MultipleUsbDevices) => exists|a: int, b: int|
                0 <= a < b < connection_types@.len() && is_usb(#[trigger] connection_types@[a]@)
                    && is_usb(#[trigger] connection_types@[b]@),
        },
{
    let mut found: Option<usize> = None;
    let mut i: usize = 0;
    while i < connection_types.len()
        invariant
            i <= connection_types@.len(),
            match found {
                Some(f) => f < i && is_usb(connection_types@[f as int]@) && forall|j: int|
                    0 <= j < i && j != f ==> !is_usb(#[trigger] connection_types@[j]@),
                None => forall|j: int| 0 <= j < i ==> !is_usb(#[trigger] connection_types@[j]@),
            },
        decreases connection_types@.len() - i,
    {
        if eq_ignore_ascii_case(connection_types[i].as_str(), "USB") {
            match found {
                Some(f) => {
                    assert(is_usb(connection_types@[f as int]@) && is_usb(connection_types@[i as int]@));
                    return Err(ProbeDeviceError::MultipleUsbDevices);
                },
                None => {
                    found = Some(i);
                },
            }
        }
        i = i + 1;
    }
    match found {
        Some(f) => Ok(f),
        None => Err(ProbeDeviceError::NoUsbDevice),
    }
}

} // verus!
