//! Argument construction for the external media player.
//!
//! A playback flag either stands alone (`--mute`) or carries a value
//! (`--volume=100`); the tagged type keeps the two apart. The player's
//! command line is the primary address followed by the rendered flags;
//! spawning the player process is the caller's part, this module states
//! exactly which arguments it is handed.

use vstd::prelude::*;
use vstd::string::StringExecFns;

verus! {

/// One playback flag: bare, or joined with its value as `name=value`.
#[derive(Debug)]
pub enum Flag {
    Bare(String),
    Valued(String, String),
}

/// The collection of flags handed to the player.
pub type MpvArgs = Vec<Flag>;

/// The name/value shape of a flag.
pub open spec fn spec_flag_view(f: Flag) -> (Seq<char>, Option<Seq<char>>) {
    match f {
        Flag::Bare(name) => (name@, None),
        Flag::Valued(name, value) => (name@, Some(value@)),
    }
}

/// The name/value shapes of a flag sequence.
pub open spec fn spec_flag_views(s: Seq<Flag>) -> Seq<(Seq<char>, Option<Seq<char>>)> {
    s.map_values(|f: Flag| spec_flag_view(f))
}

/// How one flag appears on the command line.
pub open spec fn spec_render_flag(f: Flag) -> Seq<char> {
    match f {
        Flag::Bare(name) => name@,
        Flag::Valued(name, value) => name@ + "="@ + value@,
    }
}

/// The digit character for one decimal digit.
pub open spec fn spec_digit_char(d: int) -> char {
    if d == 0 {
        '0'
    } else if d == 1 {
        '1'
    } else if d == 2 {
        '2'
    } else if d == 3 {
        '3'
    } else if d == 4 {
        '4'
    } else if d == 5 {
        '5'
    } else if d == 6 {
        '6'
    } else if d == 7 {
        '7'
    } else if d == 8 {
        '8'
    } else {
        '9'
    }
}

/// The decimal notation of a non-negative number, most significant digit
/// first, without leading zeros.
pub open spec fn spec_decimal(n: int) -> Seq<char>
    decreases n,
{
    if n < 10 {
        seq![spec_digit_char(n)]
    } else {
        spec_decimal(n / 10).push(spec_digit_char(n % 10))
    }
}

fn digit_str(d: u8) -> (r: &'static str)
    requires
        d < 10,
    ensures
        r@ == seq![spec_digit_char(d as int)],
{
    proof {
        reveal_strlit("0");
        reveal_strlit("1");
        reveal_strlit("2");
        reveal_strlit("3");
        reveal_strlit("4");
        reveal_strlit("5");
        reveal_strlit("6");
        reveal_strlit("7");
        reveal_strlit("8");
        reveal_strlit("9");
    }
    let r = if d == 0 {
        "0"
    } else if d == 1 {
        "1"
    } else if d == 2 {
        "2"
    } else if d == 3 {
        "3"
    } else if d == 4 {
        "4"
    } else if d == 5 {
        "5"
    } else if d == 6 {
        "6"
    } else if d == 7 {
        "7"
    } else if d == 8 {
        "8"
    } else {
        "9"
    };
    proof {
        assert(r@ =~= seq![spec_digit_char(d as int)]);
    }
    r
}

/// The decimal notation of a number, e.g. for a volume level.
pub fn u8_to_decimal(n: u8) -> (r: String)
    ensures
        r@ == spec_decimal(n as int),
    decreases n,
{
    if n < 10 {
        digit_str(n).to_owned()
    } else {
        let prefix = u8_to_decimal(n / 10);
        let r = prefix.concat(digit_str(n % 10));
        proof {
            assert(r@ =~= spec_decimal((n / 10) as int).push(spec_digit_char((n % 10) as int)));
        }
        r
    }
}

/// The command-line form of one flag: the bare name, or `name=value`.
pub fn render_flag(f: &Flag) -> (r: String)
    ensures
        r@ == spec_render_flag(*f),
{
    match f {
        Flag::Bare(name) => name.clone(),
        Flag::Valued(name, value) => name.clone().concat("=").concat(value.as_str()),
    }
}

/// The flags that one invocation's playback preferences come to:
/// `--no-video` unless video is wanted, `--no-audio` for video-only
/// playback, always an explicit volume, and `--mute` / `--loop` on demand,
/// in that order.
pub open spec fn spec_playback_flags(
    show_video: bool,
    only_video: bool,
    volume: int,
    mute: bool,
    loop_audio: bool,
) -> Seq<(Seq<char>, Option<Seq<char>>)> {
    (if !show_video && !only_video {
        seq![("--no-video"@, None::<Seq<char>>)]
    } else {
        Seq::empty()
    }) + (if only_video {
        seq![("--no-audio"@, None::<Seq<char>>)]
    } else {
        Seq::empty()
    }) + seq![("--volume"@, Some(spec_decimal(volume)))] + (if mute {
        seq![("--mute"@, None::<Seq<char>>)]
    } else {
        Seq::empty()
    }) + (if loop_audio {
        seq![("--loop"@, None::<Seq<char>>)]
    } else {
        Seq::empty()
    })
}

/// Builds the player flags for one invocation from the user's playback
/// preferences; the result is exactly `spec_playback_flags`.
pub fn build_playback_flags(
    show_video: bool,
    only_video: bool,
    volume: u8,
    mute: bool,
    loop_audio: bool,
) -> (r: MpvArgs)
    ensures
        spec_flag_views(r@) == spec_playback_flags(
            show_video,
            only_video,
            volume as int,
            mute,
            loop_audio,
        ),
{
    let mut flags: MpvArgs = Vec::new();
    if !show_video && !only_video {
        flags.push(Flag::Bare(String::from_str("--no-video")));
    }
    if only_video {
        flags.push(Flag::Bare(String::from_str("--no-audio")));
    }
    flags.push(Flag::Valued(String::from_str("--volume"), u8_to_decimal(volume)));
    if mute {
        flags.push(Flag::Bare(String::from_str("--mute")));
    }
    if loop_audio {
        flags.push(Flag::Bare(String::from_str("--loop")));
    }
    proof {
        assert(spec_flag_views(flags@) =~= spec_playback_flags(
            show_video,
            only_video,
            volume as int,
            mute,
            loop_audio,
        ));
    }
    flags
}

/// An invocation of the external player: the media to play and the flags to
/// pass along.
pub struct Mpv {
    /// The primary media address or file path.
    pub audio: String,
    /// The flags for the player, if any.
    pub args: Option<MpvArgs>,
}

impl Mpv {
    /// Packs up one player invocation.
    pub fn new(audio: String, args: Option<MpvArgs>) -> (r: Mpv)
        ensures
            r.audio == audio,
            r.args == args,
    {
        Mpv { audio, args }
    }

    /// The full argument list for the player process: the media address
    /// first, then each flag in order, rendered as it appears on the
    /// command line. The caller passes this list to the player unchanged.
    pub fn build_args(&self) -> (r: Vec<String>)
        ensures
            self.args matches Some(flags) ==> r@.len() == 1 + flags@.len(),
            self.args is None ==> r@.len() == 1,
            r@.len() > 0 && r@[0]@ == self.audio@,
            self.args matches Some(flags) ==> forall|i: int|
                0 <= i < flags@.len() ==> r@[i + 1]@ == spec_render_flag(flags@[i]),
    {
        let mut out: Vec<String> = Vec::new();
        out.push(self.audio.clone());
        match &self.args {
            Some(flags) => {
                let mut i: usize = 0;
                while i < flags.len()
                    invariant
                        i <= flags@.len(),
                        out@.len() == 1 + i,
                        out@[0]@ == self.audio@,
                        forall|j: int| 0 <= j < i ==> out@[j + 1]@ == spec_render_flag(flags@[j]),
                    decreases flags@.len() - i,
                {
                    let rendered = render_flag(&flags[i]);
                    out.push(rendered);
                    i += 1;
                }
            },
            None => {},
        }
        out
    }
}

/// The log line that records what the player was spawned with: the media
/// address and whether flags were passed along.
pub fn log_spawn_details(audio: &str, args: &Option<MpvArgs>) -> (r: String)
    ensures
        args is Some ==> r@ == "info: "@ + "mpv spawn details for "@ + audio@
            + " (with arguments)"@,
        args is None ==> r@ == "info: "@ + "mpv spawn details for "@ + audio@
            + " (no arguments provided)"@,
{
    let base = String::from_str("info: ").concat("mpv spawn details for ").concat(audio);
    match args {
        Some(_) => base.concat(" (with arguments)"),
        None => base.concat(" (no arguments provided)"),
    }
}

} // verus!
