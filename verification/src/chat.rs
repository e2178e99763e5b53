//! The inbound chat surface: plain message values, the moderator check, and
//! the verified parser that classifies a message's first token against the
//! fixed command and vote-token tables.

use vstd::prelude::*;

verus! {

/// One inbound chat message, as plain values: the transport hands these in.
pub struct ChatMessage {
    /// Stable identity of the sender, used only for duplicate-vote
    /// suppression.
    pub sender_id: String,
    /// Display name of the sender, used only in reply messages.
    pub sender_name: String,
    /// Whether the sender may use privileged commands.
    pub is_privileged: bool,
    /// The free message text.
    pub text: String,
}

/// A sender with a moderator or broadcaster badge may use privileged
/// commands.
pub open spec fn spec_is_mod(badge_names: Seq<String>) -> bool {
    exists|i: int|
        0 <= i < badge_names.len() && ((#[trigger] badge_names[i])@ == "moderator"@
            || badge_names[i]@ == "broadcaster"@)
}

/// Whether a sender carrying these badge names is privileged.
pub fn is_mod(badge_names: &Vec<String>) -> (r: bool)
    ensures
        r == spec_is_mod(badge_names@),
{
    let moderator = "moderator".to_owned();
    let broadcaster = "broadcaster".to_owned();
    let n = badge_names.len();
    let mut i: usize = 0;
    while i < n
        invariant
            n == badge_names@.len(),
            i <= n,
            moderator@ == "moderator"@,
            broadcaster@ == "broadcaster"@,
            forall|j: int|
                0 <= j < i ==> (#[trigger] badge_names@[j])@ != "moderator"@ && badge_names@[j]@
                    != "broadcaster"@,
        decreases n - i,
    {
        if badge_names[i] == moderator || badge_names[i] == broadcaster {
            return true;
        }
        i += 1;
    }
    false
}

/// Whitespace for the purpose of token splitting.
pub open spec fn is_ws(c: char) -> bool {
    c == ' ' || c == '\t' || c == '\n' || c == '\r'
}

/// ASCII letters fold to upper case; every other character is unchanged.
pub open spec fn ascii_upper(c: char) -> char {
    if c == 'a' {
        'A'
    } else if c == 'b' {
        'B'
    } else if c == 'c' {
        'C'
    } else if c == 'd' {
        'D'
    } else if c == 'e' {
        'E'
    } else if c == 'f' {
        'F'
    } else if c == 'g' {
        'G'
    } else if c == 'h' {
        'H'
    } else if c == 'i' {
        'I'
    } else if c == 'j' {
        'J'
    } else if c == 'k' {
        'K'
    } else if c == 'l' {
        'L'
    } else if c == 'm' {
        'M'
    } else if c == 'n' {
        'N'
    } else if c == 'o' {
        'O'
    } else if c == 'p' {
        'P'
    } else if c == 'q' {
        'Q'
    } else if c == 'r' {
        'R'
    } else if c == 's' {
        'S'
    } else if c == 't' {
        'T'
    } else if c == 'u' {
        'U'
    } else if c == 'v' {
        'V'
    } else if c == 'w' {
        'W'
    } else if c == 'x' {
        'X'
    } else if c == 'y' {
        'Y'
    } else if c == 'z' {
        'Z'
    } else {
        c
    }
}

/// The length of the whitespace prefix of `s`.
pub open spec fn ws_prefix_len(s: Seq<char>) -> int
    decreases s.len(),
{
    if s.len() > 0 && is_ws(s[0]) {
        1 + ws_prefix_len(s.drop_first())
    } else {
        0
    }
}

/// The length of the non-whitespace prefix of `s`.
pub open spec fn token_len(s: Seq<char>) -> int
    decreases s.len(),
{
    if s.len() > 0 && !is_ws(s[0]) {
        1 + token_len(s.drop_first())
    } else {
        0
    }
}

/// The first whitespace-delimited token of `s`, folded to ASCII upper case
/// (empty when `s` holds only whitespace).
pub open spec fn spec_command_token(s: Seq<char>) -> Seq<char> {
    let rest = s.skip(ws_prefix_len(s));
    rest.take(token_len(rest)).map_values(|c: char| ascii_upper(c))
}

fn upper_char(c: char) -> (r: char)
    ensures
        r == ascii_upper(c),
{
    match c {
        'a' => 'A',
        'b' => 'B',
        'c' => 'C',
        'd' => 'D',
        'e' => 'E',
        'f' => 'F',
        'g' => 'G',
        'h' => 'H',
        'i' => 'I',
        'j' => 'J',
        'k' => 'K',
        'l' => 'L',
        'm' => 'M',
        'n' => 'N',
        'o' => 'O',
        'p' => 'P',
        'q' => 'Q',
        'r' => 'R',
        's' => 'S',
        't' => 'T',
        'u' => 'U',
        'v' => 'V',
        'w' => 'W',
        'x' => 'X',
        'y' => 'Y',
        'z' => 'Z',
        other => other,
    }
}

fn ws_at(text: &str, i: usize) -> (b: bool)
    requires
        i < text@.len(),
    ensures
        b == is_ws(text@[i as int]),
{
    let c = text.get_char(i);
    c == ' ' || c == '\t' || c == '\n' || c == '\r'
}

proof fn lemma_ws_prefix(s: Seq<char>, i: int)
    requires
        0 <= i <= s.len(),
        forall|j: int| 0 <= j < i ==> is_ws(s[j]),
        i == s.len() || !is_ws(s[i]),
    ensures
        ws_prefix_len(s) == i,
    decreases s.len(),
{
    if i > 0 {
        lemma_ws_prefix(s.drop_first(), i - 1);
    }
}

proof fn lemma_token_len(s: Seq<char>, i: int)
    requires
        0 <= i <= s.len(),
        forall|j: int| 0 <= j < i ==> !is_ws(s[j]),
        i == s.len() || is_ws(s[i]),
    ensures
        token_len(s) == i,
    decreases s.len(),
{
    if i > 0 {
        lemma_token_len(s.drop_first(), i - 1);
    }
}

/// The first whitespace-delimited token of `text`, folded to ASCII upper
/// case, as the command table expects it.
pub fn command_token(text: &str) -> (t: Vec<char>)
    ensures
        t@ == spec_command_token(text@),
{
    let n = text.unicode_len();
    let mut i: usize = 0;
    while i < n && ws_at(text, i)
        invariant
            n == text@.len(),
            i <= n,
            forall|j: int| 0 <= j < i ==> is_ws(text@[j]),
        decreases n - i,
    {
        i += 1;
    }
    proof {
        lemma_ws_prefix(text@, i as int);
    }
    let start = i;
    let mut t: Vec<char> = Vec::new();
    while i < n && !ws_at(text, i)
        invariant
            n == text@.len(),
            start <= i <= n,
            forall|j: int| start <= j < i ==> !is_ws(text@[j]),
            t@.len() == i - start,
            forall|j: int| 0 <= j < t@.len() ==> t@[j] == ascii_upper(text@[start + j]),
        decreases n - i,
    {
        let c = text.get_char(i);
        t.push(upper_char(c));
        i += 1;
    }
    proof {
        let rest = text@.skip(start as int);
        assert forall|j: int| 0 <= j < i - start implies !is_ws(rest[j]) by {
            assert(rest[j] == text@[start + j]);
        }
        if (i as int) - (start as int) < rest.len() {
            assert(rest[(i - start) as int] == text@[i as int]);
        }
        lemma_token_len(rest, i - start);
        assert(t@ =~= spec_command_token(text@));
    }
    t
}

/// What a message's first token means, classified against the fixed command
/// and vote-token table. Vote payloads are option indices; `DualVote` tokens
/// (`1`, `2`) count in both the ability poll and the yes/no poll.
#[derive(Clone, Copy, Debug, PartialEq, Eq, Structural)]
pub enum Command {
    /// `Q`, `W`, `E`, `R`, `3`, `4`: a vote in the ability poll.
    AbilityVote(usize),
    /// `1`, `2`: a vote in the ability poll and in the yes/no poll alike.
    DualVote(usize),
    /// `YES`, `NO`: a vote in the yes/no poll.
    YesNoVote(usize),
    /// `FF`: one occurrence of the rush trigger keyword.
    Rush,
    /// `!RESULTS_LEAGUE` (privileged): close the ability poll and read it out.
    ResultsLeague,
    /// `!UP_LEAGUE` or `!RESET_LEAGUE` (privileged): request a fresh ability poll.
    OpenLeaguePoll,
    /// `!STOP_LEAGUE` (privileged): close the ability poll silently.
    StopLeague,
    /// `!RECONNECT_LEAGUE` (privileged): resume polling the telemetry endpoint.
    ReconnectLeague,
    /// `!RESULTS_VOTES` (privileged): close the yes/no poll and read it out.
    ResultsVotes,
    /// `!RESET_VOTES` (privileged): reopen the yes/no poll.
    ResetVotes,
    /// `!STOP_VOTES` (privileged): close the yes/no poll.
    StopVotes,
    /// Anything else: unknown tokens are ignored.
    Ignore,
}

/// The command table over the case-folded first token of a message.
pub open spec fn spec_command(s: Seq<char>) -> Command {
    let t = spec_command_token(s);
    if t == "Q"@ {
        Command::AbilityVote(0)
    } else if t == "W"@ {
        Command::AbilityVote(1)
    } else if t == "E"@ {
        Command::AbilityVote(2)
    } else if t == "R"@ {
        Command::AbilityVote(3)
    } else if t == "3"@ {
        Command::AbilityVote(2)
    } else if t == "4"@ {
        Command::AbilityVote(3)
    } else if t == "1"@ {
        Command::DualVote(0)
    } else if t == "2"@ {
        Command::DualVote(1)
    } else if t == "YES"@ {
        Command::YesNoVote(0)
    } else if t == "NO"@ {
        Command::YesNoVote(1)
    } else if t == "FF"@ {
        Command::Rush
    } else if t == "!RESULTS_LEAGUE"@ {
        Command::ResultsLeague
    } else if t == "!UP_LEAGUE"@ || t == "!RESET_LEAGUE"@ {
        Command::OpenLeaguePoll
    } else if t == "!STOP_LEAGUE"@ {
        Command::StopLeague
    } else if t == "!RECONNECT_LEAGUE"@ {
        Command::ReconnectLeague
    } else if t == "!RESULTS_VOTES"@ {
        Command::ResultsVotes
    } else if t == "!RESET_VOTES"@ {
        Command::ResetVotes
    } else if t == "!STOP_VOTES"@ {
        Command::StopVotes
    } else {
        Command::Ignore
    }
}

/// Classify a message's first token against the command table.
pub fn parse_command(text: &str) -> (r: Command)
    ensures
        r == spec_command(text@),
{
    let t = command_token(text);
    if token_is(&t, "Q") {
        Command::AbilityVote(0)
    } else if token_is(&t, "W") {
        Command::AbilityVote(1)
    } else if token_is(&t, "E") {
        Command::AbilityVote(2)
    } else if token_is(&t, "R") {
        Command::AbilityVote(3)
    } else if token_is(&t, "3") {
        Command::AbilityVote(2)
    } else if token_is(&t, "4") {
        Command::AbilityVote(3)
    } else if token_is(&t, "1") {
        Command::DualVote(0)
    } else if token_is(&t, "2") {
        Command::DualVote(1)
    } else if token_is(&t, "YES") {
        Command::YesNoVote(0)
    } else if token_is(&t, "NO") {
        Command::YesNoVote(1)
    } else if token_is(&t, "FF") {
        Command::Rush
    } else if token_is(&t, "!RESULTS_LEAGUE") {
        Command::ResultsLeague
    } else if token_is(&t, "!UP_LEAGUE") || token_is(&t, "!RESET_LEAGUE") {
        Command::OpenLeaguePoll
    } else if token_is(&t, "!STOP_LEAGUE") {
        Command::StopLeague
    } else if token_is(&t, "!RECONNECT_LEAGUE") {
        Command::ReconnectLeague
    } else if token_is(&t, "!RESULTS_VOTES") {
        Command::ResultsVotes
    } else if token_is(&t, "!RESET_VOTES") {
        Command::ResetVotes
    } else if token_is(&t, "!STOP_VOTES") {
        Command::StopVotes
    } else {
        Command::Ignore
    }
}

/// Whether the token equals `word` character for character.
pub fn token_is(t: &Vec<char>, word: &str) -> (r: bool)
    ensures
        r == (t@ == word@),
{
    let n = word.unicode_len();
    if t.len() != n {
        proof {
            assert(t@.len() != word@.len());
        }
        return false;
    }
    let mut i: usize = 0;
    while i < n
        invariant
            n == word@.len(),
            n == t@.len(),
            i <= n,
            forall|j: int| 0 <= j < i ==> t@[j] == word@[j],
        decreases n - i,
    {
        if t[i] != word.get_char(i) {
            return false;
        }
        i += 1;
    }
    proof {
        assert(t@ =~= word@);
    }
    true
}

} // verus!
