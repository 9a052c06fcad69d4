//! Source classification of locators and the extra command-line arguments
//! handed to the yt-dlp extractor, from settings and environment values.
use vstd::prelude::*;
use crate::text::{blank, contains_str, contains_text, is_blank};

verus! {

/// The `[yt_dlp]` section of the settings file.
pub struct YtDlpSettings {
    pub cookies_from_browser: Option<String>,
    pub cookies_file: Option<String>,
    pub proxy: Option<String>,
    pub extra_args: Option<Vec<String>>,
}

/// API credentials from the settings file.
pub struct Tokens {
    pub token: String,
    pub api_key: String,
}

/// The settings file.
pub struct ConfigFile {
    pub token: Tokens,
    pub yt_dlp: Option<YtDlpSettings>,
}

/// The yt-dlp related environment variables, as read by the caller.
pub struct YtDlpEnv {
    /// `YTDLP_COOKIES_FROM_BROWSER`
    pub cookies_from_browser: Option<String>,
    /// `YTDLP_COOKIES_FILE`
    pub cookies_file: Option<String>,
    /// `YTDLP_PROXY`
    pub proxy: Option<String>,
    /// `YTDLP_EXTRA_ARGS`, whitespace separated.
    pub extra_args: Option<String>,
}

/// The whitespace-separated words of `s`, as `str::split_whitespace` gives them.
pub uninterp spec fn words_of(s: Seq<char>) -> Seq<Seq<char>>;

/// Relies on `str::split_whitespace`: the words, in order, depend on the text alone.
#[verifier::external_body]
fn split_words(s: &str) -> (r: Vec<String>)
    ensures
        views(r@) == words_of(s@),
{
    s.split_whitespace().map(|w| w.to_string()).collect()
}

/// Texts of a sequence of strings.
pub open spec fn views(v: Seq<String>) -> Seq<Seq<char>> {
    v.map_values(|s: String| s@)
}

fn text_blank(o: &Option<String>) -> (r: bool)
    ensures
        r == match o {
            Some(s) => blank(s@),
            None => true,
        },
{
    match o {
        Some(s) => is_blank(s.as_str()),
        None => true,
    }
}

/// The locator points at YouTube.
pub open spec fn youtube_locator(u: Seq<char>) -> bool {
    contains_text(u, "youtube.com"@) || contains_text(u, "youtu.be"@) || contains_text(
        u,
        "m.youtube.com"@,
    )
}

/// The locator points at SoundCloud.
pub open spec fn soundcloud_locator(u: Seq<char>) -> bool {
    contains_text(u, "soundcloud.com"@) || contains_text(u, "snd.sc"@) || contains_text(
        u,
        "sndcdn.com"@,
    )
}

pub fn is_youtube(u: &str) -> (r: bool)
    ensures
        r == youtube_locator(u@),
{
    contains_str(u, "youtube.com") || contains_str(u, "youtu.be") || contains_str(u, "m.youtube.com")
}

pub fn is_soundcloud(u: &str) -> (r: bool)
    ensures
        r == soundcloud_locator(u@),
{
    contains_str(u, "soundcloud.com") || contains_str(u, "snd.sc") || contains_str(u, "sndcdn.com")
}

/// `flag value` when the value is present and not blank, else nothing.
pub open spec fn flag_pair(flag: Seq<char>, value: Option<String>) -> Seq<Seq<char>> {
    match value {
        Some(v) => if blank(v@) {
            Seq::empty()
        } else {
            seq![flag, v@]
        },
        None => Seq::empty(),
    }
}

/// The texts of `args` that are not blank, in order.
pub open spec fn non_blank(args: Seq<String>) -> Seq<Seq<char>>
    decreases args.len(),
{
    if args.len() == 0 {
        Seq::empty()
    } else if blank(args.last()@) {
        non_blank(args.drop_last())
    } else {
        non_blank(args.drop_last()).push(args.last()@)
    }
}

/// Arguments taken from the settings file; each of the three options counts
/// only when its environment variable is absent.
pub open spec fn settings_args(env: YtDlpEnv, settings: Option<YtDlpSettings>) -> Seq<Seq<char>> {
    match settings {
        None => Seq::empty(),
        Some(y) => (if env.cookies_from_browser is None {
            flag_pair("--cookies-from-browser"@, y.cookies_from_browser)
        } else {
            Seq::empty()
        }) + (if env.cookies_file is None {
            flag_pair("--cookies"@, y.cookies_file)
        } else {
            Seq::empty()
        }) + (if env.proxy is None {
            flag_pair("--proxy"@, y.proxy)
        } else {
            Seq::empty()
        }) + match y.extra_args {
            Some(a) => non_blank(a@),
            None => Seq::empty(),
        },
    }
}

/// All extra arguments: the words of `YTDLP_EXTRA_ARGS`, then the settings
/// file's, then the environment's options.
pub open spec fn extra_args(env: YtDlpEnv, settings: Option<YtDlpSettings>) -> Seq<Seq<char>> {
    (match env.extra_args {
        Some(e) => words_of(e@),
        None => Seq::empty(),
    }) + settings_args(env, settings) + flag_pair("--cookies-from-browser"@, env.cookies_from_browser)
        + flag_pair("--cookies"@, env.cookies_file) + flag_pair("--proxy"@, env.proxy)
}

fn push_flag_pair(out: &mut Vec<String>, flag: &str, value: &Option<String>)
    ensures
        views(final(out)@) == views(old(out)@) + flag_pair(flag@, *value),
{
    let ghost before = views(out@);
    if !text_blank(value) {
        match value {
            Some(v) => {
                out.push(String::from_str(flag));
                out.push(v.clone());
            },
            None => {},
        }
    }
    assert(views(out@) =~= before + flag_pair(flag@, *value));
}

fn append_all(out: &mut Vec<String>, more: Vec<String>)
    ensures
        views(final(out)@) == views(old(out)@) + views(more@),
{
    let ghost before = views(out@);
    let n = more.len();
    let mut i: usize = 0;
    while i < n
        invariant
            n == more@.len(),
            i <= n,
            views(out@) == before + views(more@.subrange(0, i as int)),
        decreases n - i,
    {
        let ghost pre = more@.subrange(0, i as int);
        assert(more@.subrange(0, i + 1) =~= pre.push(more@[i as int]));
        assert(views(pre.push(more@[i as int])) =~= views(pre).push(more@[i as int]@));
        let ghost out0 = out@;
        out.push(more[i].clone());
        assert(views(out@) =~= views(out0).push(more@[i as int]@));
        i = i + 1;
        assert(views(out@) =~= before + views(more@.subrange(0, i as int)));
    }
    assert(more@.subrange(0, n as int) =~= more@);
}

fn push_non_blank(out: &mut Vec<String>, args: &Vec<String>)
    ensures
        views(final(out)@) == views(old(out)@) + non_blank(args@),
{
    let ghost before = views(out@);
    let n = args.len();
    let mut i: usize = 0;
    while i < n
        invariant
            n == args@.len(),
            i <= n,
            views(out@) == before + non_blank(args@.subrange(0, i as int)),
        decreases n - i,
    {
        let ghost pre = args@.subrange(0, i as int);
        let ghost out0 = out@;
        assert(args@.subrange(0, i + 1).drop_last() =~= pre);
        assert(args@.subrange(0, i + 1).last() == args@[i as int]);
        if !is_blank(args[i].as_str()) {
            out.push(args[i].clone());
            assert(views(out@) =~= views(out0).push(args@[i as int]@));
        }
        i = i + 1;
        assert(views(out@) =~= before + non_blank(args@.subrange(0, i as int)));
    }
    assert(args@.subrange(0, n as int) =~= args@);
}

/// Extra yt-dlp arguments from the environment values and the settings file:
/// the words of `YTDLP_EXTRA_ARGS` first, then the settings file's cookie,
/// cookie-file and proxy options (each only when the environment does not set
/// it) and its extra arguments, then the environment's options. Blank values
/// are skipped.
pub fn extra_args_from_config(env: &YtDlpEnv, settings: Option<&YtDlpSettings>) -> (r: Vec<String>)
    ensures
        views(r@) == extra_args(
            *env,
            match settings {
                Some(y) => Some(*y),
                None => None,
            },
        ),
{
    let mut args: Vec<String> = Vec::new();
    match &env.extra_args {
        Some(e) => {
            let words = split_words(e.as_str());
            append_all(&mut args, words);
        },
        None => {},
    }
    match settings {
        Some(y) => {
            if env.cookies_from_browser.is_none() {
                push_flag_pair(&mut args, "--cookies-from-browser", &y.cookies_from_browser);
            }
            if env.cookies_file.is_none() {
                push_flag_pair(&mut args, "--cookies", &y.cookies_file);
            }
            if env.proxy.is_none() {
                push_flag_pair(&mut args, "--proxy", &y.proxy);
            }
            match &y.extra_args {
                Some(a) => push_non_blank(&mut args, a),
                None => {},
            }
        },
        None => {},
    }
    push_flag_pair(&mut args, "--cookies-from-browser", &env.cookies_from_browser);
    push_flag_pair(&mut args, "--cookies", &env.cookies_file);
    push_flag_pair(&mut args, "--proxy", &env.proxy);
    proof {
        let s = match settings {
            Some(y) => Some(*y),
            None => None,
        };
        assert(views(args@) =~= extra_args(*env, s));
    }
    args
}

/// The settings file names a cookie source.
pub open spec fn settings_name_cookies(settings: Option<YtDlpSettings>) -> bool {
    match settings {
        Some(y) => (match y.cookies_from_browser {
            Some(s) => !blank(s@),
            None => false,
        }) || (match y.cookies_file {
            Some(s) => !blank(s@),
            None => false,
        }),
        None => false,
    }
}

/// Default cookie arguments: none when the environment (`env_names_cookies`)
/// or the settings file already name a cookie source; else `--cookies` with
/// the `cookies.txt` that the caller found, if any.
pub fn cookies_args(env_names_cookies: bool, settings: Option<&YtDlpSettings>, found: Option<String>) -> (r: Vec<String>)
    ensures
        views(r@) == if env_names_cookies || settings_name_cookies(
            match settings {
                Some(y) => Some(*y),
                None => None,
            },
        ) {
            Seq::<Seq<char>>::empty()
        } else {
            match found {
                Some(p) => seq!["--cookies"@, p@],
                None => Seq::<Seq<char>>::empty(),
            }
        },
{
    let mut out: Vec<String> = Vec::new();
    if env_names_cookies {
        assert(views(out@) =~= Seq::<Seq<char>>::empty());
        return out;
    }
    let named = match settings {
        Some(y) => !text_blank(&y.cookies_from_browser) || !text_blank(&y.cookies_file),
        None => false,
    };
    if named {
        assert(views(out@) =~= Seq::<Seq<char>>::empty());
        return out;
    }
    match found {
        Some(p) => {
            out.push(String::from_str("--cookies"));
            out.push(p);
        },
        None => {},
    }
    proof {
        let s = match settings {
            Some(y) => Some(*y),
            None => None,
        };
        assert(views(out@) =~= match found {
            Some(p) => seq!["--cookies"@, p@],
            None => Seq::<Seq<char>>::empty(),
        });
    }
    out
}

/// Full user arguments for the extractor: `base`, then `--js-runtimes node`,
/// then the cookie arguments, then the extra arguments.
pub fn compose_ytdlp_user_args(base: Vec<String>, cookies: Vec<String>, extra: Vec<String>) -> (r: Vec<String>)
    ensures
        views(r@) == views(base@) + seq!["--js-runtimes"@, "node"@] + views(cookies@) + views(extra@),
{
    let mut out = base;
    let ghost b = views(out@);
    out.push(String::from_str("--js-runtimes"));
    out.push(String::from_str("node"));
    assert(views(out@) =~= b + seq!["--js-runtimes"@, "node"@]);
    append_all(&mut out, cookies);
    append_all(&mut out, extra);
    out
}

} // verus!
