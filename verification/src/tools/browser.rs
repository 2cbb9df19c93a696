//! The browser tool: how a command line is split into arguments, and what the
//! tool does with a request.

use crate::json::{member_number, member_text, number_member, text_member};
use crate::text::{char_is_whitespace, same_text};
use crate::tools::ToolResult;
use vstd::prelude::*;

verus! {

/// Where the splitter stands after reading some prefix of a command.
pub struct SplitState {
    /// Arguments completed so far.
    pub args: Seq<Seq<char>>,
    /// The argument being read.
    pub current: Seq<char>,
    /// The quote character that is open, if any.
    pub quote: Option<char>,
    /// Whether the last character read was an unescaped backslash.
    pub escaped: bool,
}

/// The splitter before any character is read.
pub open spec fn split_start() -> SplitState {
    SplitState { args: Seq::empty(), current: Seq::empty(), quote: None, escaped: false }
}

/// One character read. In order: a character after a backslash is taken
/// literally; a backslash escapes the next character; inside quotes only the
/// matching quote is special, and closes them; a quote character opens
/// quotes; whitespace ends the current argument if it is not empty; any other
/// character joins the current argument.
pub open spec fn split_step(st: SplitState, ch: char) -> SplitState {
    if st.escaped {
        SplitState { current: st.current.push(ch), escaped: false, ..st }
    } else if ch == '\\' {
        SplitState { escaped: true, ..st }
    } else if st.quote is Some {
        if ch == st.quote->0 {
            SplitState { quote: None, ..st }
        } else {
            SplitState { current: st.current.push(ch), ..st }
        }
    } else if ch == '"' || ch == '\'' {
        SplitState { quote: Some(ch), ..st }
    } else if char_is_whitespace(ch) {
        if st.current.len() > 0 {
            SplitState { args: st.args.push(st.current), current: Seq::empty(), ..st }
        } else {
            st
        }
    } else {
        SplitState { current: st.current.push(ch), ..st }
    }
}

/// The splitter after reading all of `input`, left to right.
pub open spec fn split_scan(input: Seq<char>) -> SplitState
    decreases input.len(),
{
    if input.len() == 0 {
        split_start()
    } else {
        split_step(split_scan(input.drop_last()), input.last())
    }
}

/// The arguments of a command, or `None` where it ends inside quotes. A
/// trailing backslash stands for itself; the last argument needs no
/// whitespace after it.
pub open spec fn split_command(input: Seq<char>) -> Option<Seq<Seq<char>>> {
    let st = split_scan(input);
    let last = if st.escaped {
        st.current.push('\\')
    } else {
        st.current
    };
    if st.quote is Some {
        None
    } else if last.len() > 0 {
        Some(st.args.push(last))
    } else {
        Some(st.args)
    }
}

/// Whether a command has neither quotes nor backslashes.
pub open spec fn is_plain(input: Seq<char>) -> bool {
    forall|i: int|
        0 <= i < input.len() ==> #[trigger] input[i] != '\\' && input[i] != '"' && input[i] != '\''
}

/// While scanning, no completed argument is empty.
proof fn scanned_arguments_are_not_empty(input: Seq<char>)
    ensures
        forall|i: int|
            0 <= i < split_scan(input).args.len() ==> (#[trigger] split_scan(input).args[i]).len()
                > 0,
    decreases input.len(),
{
    if input.len() > 0 {
        scanned_arguments_are_not_empty(input.drop_last());
    }
}

/// While scanning a plain command, nothing is quoted or escaped, and neither
/// the completed arguments nor the one being read hold whitespace.
proof fn plain_scan_holds_no_whitespace(input: Seq<char>)
    requires
        is_plain(input),
    ensures
        split_scan(input).quote is None,
        !split_scan(input).escaped,
        forall|j: int|
            0 <= j < split_scan(input).current.len() ==> !char_is_whitespace(
                #[trigger] split_scan(input).current[j],
            ),
        forall|i: int, j: int|
            0 <= i < split_scan(input).args.len() && 0 <= j < split_scan(input).args[i].len()
                ==> !char_is_whitespace(#[trigger] split_scan(input).args[i][j]),
    decreases input.len(),
{
    if input.len() > 0 {
        let rest = input.drop_last();
        assert forall|i: int| 0 <= i < rest.len() implies #[trigger] rest[i] != '\\' && rest[i]
            != '"' && rest[i] != '\'' by {
            assert(rest[i] == input[i]);
        }
        plain_scan_holds_no_whitespace(rest);
        assert(input.last() == input[input.len() - 1]);
    }
}

/// No argument of a command is empty.
pub proof fn arguments_are_not_empty(input: Seq<char>)
    ensures
        split_command(input) matches Some(args) ==> forall|i: int|
            0 <= i < args.len() ==> (#[trigger] args[i]).len() > 0,
{
    scanned_arguments_are_not_empty(input);
}

/// A command without quotes and backslashes always splits, and its arguments
/// hold no whitespace.
pub proof fn plain_command_splits_at_whitespace(input: Seq<char>)
    requires
        is_plain(input),
    ensures
        split_command(input) is Some,
        forall|i: int, j: int|
            0 <= i < split_command(input)->0.len() && 0 <= j < split_command(input)->0[i].len()
                ==> !char_is_whitespace(#[trigger] split_command(input)->0[i][j]),
{
    plain_scan_holds_no_whitespace(input);
}

/// Splits a browser command into its arguments, shell fashion: whitespace
/// separates, single or double quotes group, a backslash takes the next
/// character literally. Fails with `"unclosed quote"` exactly when the command
/// ends inside quotes.
pub fn split_browser_command(command: &str) -> (r: Result<Vec<String>, String>)
    ensures
        match r {
            Ok(args) => split_command(command@) == Some(args.deep_view()),
            Err(e) => split_command(command@) is None && e@ == "unclosed quote"@,
        },
{
    let mut args: Vec<String> = Vec::new();
    let mut current = String::new();
    let mut quote: Option<char> = None;
    let mut escaped = false;

    for ch in it: command.chars()
        invariant
            it.seq() == command@,
            split_scan(command@.take(it.index())).args =~= args.deep_view(),
            split_scan(command@.take(it.index())).current =~= current@,
            split_scan(command@.take(it.index())).quote == quote,
            split_scan(command@.take(it.index())).escaped == escaped,
    {
        let ghost before = split_scan(command@.take(it.index()));
        let ghost old_args = args.deep_view();
        proof {
            let n = it.index();
            assert(command@.take(n + 1).drop_last() =~= command@.take(n));
            assert(command@.take(n + 1).last() == ch);
            assert(split_scan(command@.take(n + 1)) == split_step(before, ch));
        }
        if escaped {
            current.push(ch);
            escaped = false;
        } else if ch == '\\' {
            escaped = true;
        } else if let Some(q) = quote {
            if ch == q {
                quote = None;
            } else {
                current.push(ch);
            }
        } else if ch == '"' || ch == '\'' {
            quote = Some(ch);
        } else if ch.is_whitespace() {
            if !current.as_str().is_empty() {
                args.push(current);
                assert(args.deep_view() =~= old_args.push(before.current));
                current = String::new();
            }
        } else {
            current.push(ch);
        }
    }
    assert(command@.take(command@.len() as int) =~= command@);
    let ghost old_args = args.deep_view();

    if escaped {
        current.push('\\');
    }
    if quote.is_some() {
        return Err("unclosed quote".to_owned());
    }
    if !current.as_str().is_empty() {
        let ghost last = current@;
        args.push(current);
        assert(args.deep_view() =~= old_args.push(last));
    }
    Ok(args)
}

/// What the tool tells the agent about itself.
pub const TOOL_DESCRIPTION: &'static str =
    "Headless browser automation. Browser state (cookies, localStorage, login sessions) persists across calls and across conversations.\n\n## Basic workflow\n1. `open <url>` \u{2014} navigate to a URL\n2. `snapshot -i` \u{2014} get interactive elements with refs (@e1, @e2, ...)\n3. `click @e1` / `fill @e2 \"text\"` \u{2014} interact with elements\n4. `get text @e3` \u{2014} extract text content\n5. Always run `snapshot -i` after navigation or interaction to see updated state\n\n## All available commands\n**Navigation**: open, back, forward, reload, close\n**Interaction**: click, dblclick, fill, type, press, hover, select, check, uncheck, upload, drag\n**Scrolling**: scroll <dir> [px], scrollintoview <sel>\n**Data extraction**: get text/html/value/attr/title/url/count/box <sel>\n**State checks**: is visible/enabled/checked <sel>\n**Snapshot**: snapshot (-i for interactive only, -c for compact)\n**Screenshot/PDF**: screenshot [path] (--full for full page), pdf <path>\n**JavaScript**: eval <js>\n**Cookies**: cookies, cookies set <name> <val>, cookies clear\n**Storage**: storage local [key], storage local set <k> <v>, storage local clear (same for session)\n**Tabs**: tab, tab new [url], tab <n>, tab close [n]\n**Frames**: frame <sel>, frame main\n**Dialogs**: dialog accept [text], dialog dismiss\n**Viewport**: set viewport <w> <h>, set device <name>, set media dark/light\n**Network**: network route <url> [--abort|--body <json>], network requests\n**Wait**: wait <sel|ms|--text|--url|--load|--fn>\n**Auth state**: state save <path>, state load <path>\n**Semantic find**: find role/text/label/placeholder <value> <action> [input]";

/// The operating system the tool runs on, as far as the default browser
/// location depends on it.
#[derive(Debug, Clone, Copy, PartialEq, Eq, Structural)]
pub enum Platform {
    Linux,
    Windows,
    MacOs,
    Other,
}

/// Where a browser is looked for on `platform` when none is configured.
pub open spec fn default_browser_executable(platform: Platform) -> Seq<char> {
    match platform {
        Platform::Linux => "/usr/bin/chromium-browser"@,
        Platform::Windows => "C:/Program Files/Google/Chrome/chrome.exe"@,
        Platform::MacOs => "/Applications/Google Chrome.app/Contents/MacOS/Google Chrome"@,
        Platform::Other => "chromium-browser"@,
    }
}

/// Headless browser automation, driven by one-line commands.
pub struct BrowserTool {
    default_timeout_secs: u64,
    browser_executable_path: Option<String>,
}

/// What the tool does with a request.
#[derive(Debug, Clone, PartialEq, Eq)]
pub enum BrowserPlan {
    /// Answer at once, without touching the browsing service.
    Reply(ToolResult),
    /// Have the browsing service visit `url`, then answer with
    /// [`BrowserTool::visit_reply`].
    Visit { url: String, program: String, timeout_secs: u64 },
}

/// A [`BrowserPlan`] as plain values.
pub enum PlanModel {
    Reply { content: Seq<char>, is_error: bool },
    Visit { url: Seq<char>, program: Seq<char>, timeout_secs: u64 },
}

impl View for BrowserPlan {
    type V = PlanModel;

    open spec fn view(&self) -> PlanModel {
        match *self {
            BrowserPlan::Reply(result) => PlanModel::Reply {
                content: result.content@,
                is_error: result.is_error,
            },
            BrowserPlan::Visit { url, program, timeout_secs } => PlanModel::Visit {
                url: url@,
                program: program@,
                timeout_secs,
            },
        }
    }
}

impl BrowserTool {
    /// The timeout applied to a request that names none.
    pub closed spec fn timeout(&self) -> u64 {
        self.default_timeout_secs
    }

    /// The configured browser executable, if any.
    pub closed spec fn configured_executable(&self) -> Option<Seq<char>> {
        match self.browser_executable_path {
            Some(path) => Some(path@),
            None => None,
        }
    }

    /// The browser executable used on `platform`: the configured one, else
    /// the platform's default.
    pub open spec fn executable(&self, platform: Platform) -> Seq<char> {
        match self.configured_executable() {
            Some(path) => path,
            None => default_browser_executable(platform),
        }
    }

    /// What is done with a request whose `command` member is `command` (absent
    /// when the request has no such string) and whose `timeout_secs` member is
    /// `timeout_secs` (absent likewise).
    ///
    /// In order: a missing command is an error; so is a command that ends
    /// inside quotes, and one without arguments; `open` followed by a URL is a
    /// visit of that URL; `close`, and every other command, is not supported.
    pub open spec fn plan_for(
        &self,
        command: Option<Seq<char>>,
        timeout_secs: Option<u64>,
        platform: Platform,
    ) -> PlanModel {
        match command {
            None => PlanModel::Reply { content: "Missing 'command' parameter"@, is_error: true },
            Some(line) => match split_command(line) {
                None => PlanModel::Reply {
                    content: "Invalid browser command syntax (quote parsing failed): "@
                        + "unclosed quote"@,
                    is_error: true,
                },
                Some(args) => if args.len() == 0 {
                    PlanModel::Reply { content: "Empty browser command"@, is_error: true }
                } else if args[0] == "open"@ && args.len() > 1 {
                    PlanModel::Visit {
                        url: args[1],
                        program: self.executable(platform),
                        timeout_secs: match timeout_secs {
                            Some(secs) => secs,
                            None => self.timeout(),
                        },
                    }
                } else if args[0] == "close"@ {
                    PlanModel::Reply { content: "Close command not supported."@, is_error: true }
                } else {
                    PlanModel::Reply {
                        content: "This command is not supported by servicor."@,
                        is_error: true,
                    }
                },
            },
        }
    }

    /// A tool with a timeout of 30 seconds. The data directory is not used.
    pub fn new(_data_dir: &str, browser_executable_path: Option<String>) -> (r: Self)
        ensures
            r.timeout() == 30,
            r.configured_executable() == match browser_executable_path {
                Some(path) => Some(path@),
                None => None,
            },
    {
        BrowserTool { default_timeout_secs: 30, browser_executable_path }
    }

    /// The same tool with another default timeout.
    pub fn with_default_timeout_secs(self, timeout_secs: u64) -> (r: Self)
        ensures
            r.timeout() == timeout_secs,
            r.configured_executable() == self.configured_executable(),
    {
        let mut tool = self;
        tool.default_timeout_secs = timeout_secs;
        tool
    }

    /// The timeout applied to a request that names none.
    pub fn default_timeout_secs(&self) -> (r: u64)
        ensures
            r == self.timeout(),
    {
        self.default_timeout_secs
    }

    /// The browser executable used on `platform`.
    pub fn get_browser_executable(&self, platform: Platform) -> (r: String)
        ensures
            r@ == self.executable(platform),
    {
        if let Some(path) = &self.browser_executable_path {
            return path.clone();
        }
        match platform {
            Platform::Linux => "/usr/bin/chromium-browser".to_owned(),
            Platform::Windows => "C:/Program Files/Google/Chrome/chrome.exe".to_owned(),
            Platform::MacOs => "/Applications/Google Chrome.app/Contents/MacOS/Google Chrome".to_owned(),
            Platform::Other => "chromium-browser".to_owned(),
        }
    }

    /// The tool's name.
    pub fn name(&self) -> (r: &'static str)
        ensures
            r@ == "browser"@,
    {
        "browser"
    }

    /// What the tool tells the agent about itself.
    pub fn description(&self) -> (r: &'static str)
        ensures
            r@ == TOOL_DESCRIPTION@,
    {
        TOOL_DESCRIPTION
    }

    /// Decides what to do with a request, given its `command` and
    /// `timeout_secs` members.
    pub fn plan(&self, command: Option<&str>, timeout_secs: Option<u64>, platform: Platform) -> (r:
        BrowserPlan)
        ensures
            r@ == self.plan_for(
                match command {
                    Some(line) => Some(line@),
                    None => None,
                },
                timeout_secs,
                platform,
            ),
    {
        let line = match command {
            Some(line) => line,
            None => {
                return BrowserPlan::Reply(ToolResult::error("Missing 'command' parameter".to_owned()));
            },
        };
        let timeout_secs = match timeout_secs {
            Some(secs) => secs,
            None => self.default_timeout_secs,
        };
        let mut args = match split_browser_command(line) {
            Ok(args) => args,
            Err(e) => {
                let message = "Invalid browser command syntax (quote parsing failed): ".to_owned();
                return BrowserPlan::Reply(ToolResult::error(message.concat(e.as_str())));
            },
        };
        if args.len() == 0 {
            return BrowserPlan::Reply(ToolResult::error("Empty browser command".to_owned()));
        }
        assert(args.deep_view()[0] == args@[0]@);
        if same_text(args[0].as_str(), "open") && args.len() > 1 {
            assert(args.deep_view()[1] == args@[1]@);
            let program = self.get_browser_executable(platform);
            let url = args.swap_remove(1);
            BrowserPlan::Visit { url, program, timeout_secs }
        } else if same_text(args[0].as_str(), "close") {
            BrowserPlan::Reply(ToolResult::error("Close command not supported.".to_owned()))
        } else {
            BrowserPlan::Reply(
                ToolResult::error("This command is not supported by servicor.".to_owned()),
            )
        }
    }

    /// Decides what to do with a request document: reads its `command` member
    /// as a string and its `timeout_secs` member as a non-negative integer,
    /// then decides as [`BrowserTool::plan`] does.
    pub fn plan_request(&self, input: &serde_json::Value, platform: Platform) -> (r: BrowserPlan)
        ensures
            r@ == self.plan_for(
                text_member(*input, "command"@),
                number_member(*input, "timeout_secs"@),
                platform,
            ),
    {
        let command = member_text(input, "command");
        let timeout_secs = member_number(input, "timeout_secs");
        self.plan(command, timeout_secs, platform)
    }

    /// The answer given after the browsing service has visited a page.
    pub fn visit_reply() -> (r: ToolResult)
        ensures
            r.content@ == "Visit executed successfully. Results are printed to console."@,
            !r.is_error,
    {
        ToolResult::success(
            "Visit executed successfully. Results are printed to console.".to_owned(),
        )
    }
}

} // verus!
