//! The generic api subject: the help texts and the command descriptions
//! that are made for every method of the resource management api.
use vstd::prelude::*;
use crate::text::{seq_join, views, join, str_equal};

verus! {

/// A parameter of an api method: its name, its type and an optional description.
pub struct MethodParameter {
    pub name: String,
    pub parameter_type: String,
    pub description: Option<String>,
}

/// The view of an optional string.
pub open spec fn opt_text(o: Option<String>) -> Option<Seq<char>> {
    match o {
        Some(s) => Some(s@),
        None => None,
    }
}

impl View for MethodParameter {
    type V = (Seq<char>, Seq<char>, Option<Seq<char>>);

    open spec fn view(&self) -> (Seq<char>, Seq<char>, Option<Seq<char>>) {
        (self.name@, self.parameter_type@, opt_text(self.description))
    }
}

/// Views of a list of parameters.
pub open spec fn parameter_views(v: Seq<MethodParameter>) -> Seq<(Seq<char>, Seq<char>, Option<Seq<char>>)> {
    v.map_values(|p: MethodParameter| p@)
}

/// What is known of an api method: its path, description, parameters, and
/// the types of its request body and response.
pub struct MethodDescriptor {
    pub path: String,
    pub description: Option<String>,
    pub parameters: Vec<MethodParameter>,
    pub body_type: Option<String>,
    pub response_type: Option<String>,
}

/// The mathematical view of a [`MethodDescriptor`].
pub struct MethodDescriptorView {
    pub path: Seq<char>,
    pub description: Option<Seq<char>>,
    pub parameters: Seq<(Seq<char>, Seq<char>, Option<Seq<char>>)>,
    pub body_type: Option<Seq<char>>,
    pub response_type: Option<Seq<char>>,
}

impl View for MethodDescriptor {
    type V = MethodDescriptorView;

    open spec fn view(&self) -> MethodDescriptorView {
        MethodDescriptorView {
            path: self.path@,
            description: opt_text(self.description),
            parameters: parameter_views(self.parameters@),
            body_type: opt_text(self.body_type),
            response_type: opt_text(self.response_type),
        }
    }
}

/// `s` up to the first occurrence of a full stop followed by a space.
pub open spec fn first_sentence(s: Seq<char>) -> Seq<char>
    decreases s.len(),
{
    if s.len() < 2 {
        s
    } else if s[0] == '.' && s[1] == ' ' {
        Seq::empty()
    } else {
        seq![s[0]] + first_sentence(s.drop_first())
    }
}

/// `s` without the full stops at its end.
pub open spec fn trim_end_dots(s: Seq<char>) -> Seq<char>
    decreases s.len(),
{
    if s.len() > 0 && s.last() == '.' {
        trim_end_dots(s.drop_last())
    } else {
        s
    }
}

/// `s` without the ampersands at its start.
pub open spec fn trim_start_ampersands(s: Seq<char>) -> Seq<char>
    decreases s.len(),
{
    if s.len() > 0 && s[0] == '&' {
        trim_start_ampersands(s.drop_first())
    } else {
        s
    }
}

/// `first_sentence` takes `s` up to index `i`, the first full stop followed
/// by a space, or the whole of `s` when there is none.
proof fn lemma_first_sentence_prefix(s: Seq<char>, i: int)
    requires
        0 <= i <= s.len(),
        forall|k: int| 0 <= k < i && k + 1 < s.len() ==> !((#[trigger] s[k]) == '.' && s[k + 1] == ' '),
        i + 1 < s.len() ==> s[i] == '.' && s[i + 1] == ' ',
        i + 1 >= s.len() ==> i == s.len(),
    ensures
        first_sentence(s) == s.take(i),
    decreases s.len(),
{
    if s.len() < 2 {
        assert(s.take(i) =~= s);
    } else if s[0] == '.' && s[1] == ' ' {
        assert(s.take(i) =~= Seq::<char>::empty());
    } else {
        let t = s.drop_first();
        assert forall|k: int| 0 <= k < i - 1 && k + 1 < t.len() implies !((#[trigger] t[k]) == '.' && t[k + 1] == ' ') by {
            assert(t[k] == s[k + 1] && t[k + 1] == s[k + 2]);
        }
        lemma_first_sentence_prefix(t, i - 1);
        assert(seq![s[0]] + t.take(i - 1) =~= s.take(i));
    }
}

/// `trim_end_dots` takes `s` up to index `j`, after which only full stops follow.
proof fn lemma_trim_end_dots_prefix(s: Seq<char>, j: int)
    requires
        0 <= j <= s.len(),
        forall|k: int| j <= k < s.len() ==> s[k] == '.',
        j > 0 ==> s[j - 1] != '.',
    ensures
        trim_end_dots(s) == s.take(j),
    decreases s.len(),
{
    if s.len() > 0 && s.last() == '.' {
        if j == s.len() {
            assert(false);
        }
        lemma_trim_end_dots_prefix(s.drop_last(), j);
        assert(s.drop_last().take(j) =~= s.take(j));
    } else {
        if j < s.len() {
            assert(s[s.len() - 1] == '.');
        }
        assert(s.take(j) =~= s);
    }
}

/// `s` without its trailing full stops.
fn trim_end_dots_str(s: &str) -> (res: String)
    ensures
        res@ == trim_end_dots(s@),
{
    let n = s.unicode_len();
    let mut j: usize = n;
    while j > 0 && s.get_char(j - 1) == '.'
        invariant
            n == s@.len(),
            j <= n,
            forall|k: int| j <= k < n ==> s@[k] == '.',
        decreases j,
    {
        j = j - 1;
    }
    proof {
        lemma_trim_end_dots_prefix(s@, j as int);
    }
    String::from_str(s.substring_char(0, j))
}

/// The short help text of an api method: the first sentence of its
/// description without the closing full stops.
pub fn create_about(description: &str) -> (about: String)
    ensures
        about@ == trim_end_dots(first_sentence(description@)),
{
    let n = description.unicode_len();
    let mut i: usize = 0;
    while n - i >= 2 && !(description.get_char(i) == '.' && description.get_char(i + 1) == ' ')
        invariant
            n == description@.len(),
            i <= n,
            forall|k: int| 0 <= k < i && k + 1 < n ==> !((#[trigger] description@[k]) == '.' && description@[k + 1] == ' '),
        decreases n - i,
    {
        i = i + 1;
    }
    let end: usize = if n - i >= 2 { i } else { n };
    proof {
        lemma_first_sentence_prefix(description@, end as int);
    }
    let first = description.substring_char(0, end);
    trim_end_dots_str(first)
}


/// Whether no full stop in `s` is followed by a space.
pub open spec fn no_sentence_break(s: Seq<char>) -> bool {
    forall|k: int| 0 <= k && k + 1 < s.len() ==> !((#[trigger] s[k]) == '.' && s[k + 1] == ' ')
}

/// The first sentence is a prefix without a sentence break.
proof fn lemma_first_sentence_facts(s: Seq<char>)
    ensures
        first_sentence(s).len() <= s.len(),
        first_sentence(s) =~= s.take(first_sentence(s).len() as int),
        no_sentence_break(first_sentence(s)),
    decreases s.len(),
{
    if s.len() >= 2 && !(s[0] == '.' && s[1] == ' ') {
        let t = s.drop_first();
        lemma_first_sentence_facts(t);
        let f = first_sentence(t);
        let r = first_sentence(s);
        assert(r == seq![s[0]] + f);
        assert forall|k: int| 0 <= k && k + 1 < r.len() implies !((#[trigger] r[k]) == '.' && r[k + 1] == ' ') by {
            if k == 0 {
                assert(r[1] == f[0]);
                assert(f[0] == t[0]);
            } else {
                assert(r[k] == f[k - 1] && r[k + 1] == f[k]);
            }
        }
    }
}

/// Without trailing full stops, `s` is a prefix of itself that does not end
/// in a full stop.
proof fn lemma_trim_end_dots_facts(s: Seq<char>)
    ensures
        trim_end_dots(s).len() <= s.len(),
        trim_end_dots(s) =~= s.take(trim_end_dots(s).len() as int),
        trim_end_dots(s).len() == 0 || trim_end_dots(s).last() != '.',
    decreases s.len(),
{
    if s.len() > 0 && s.last() == '.' {
        lemma_trim_end_dots_facts(s.drop_last());
    }
}

/// A text without a sentence break is its own first sentence.
proof fn lemma_first_sentence_whole(s: Seq<char>)
    requires
        no_sentence_break(s),
    ensures
        first_sentence(s) == s,
    decreases s.len(),
{
    if s.len() >= 2 {
        let t = s.drop_first();
        assert(!(s[0] == '.' && s[1] == ' '));
        assert forall|k: int| 0 <= k && k + 1 < t.len() implies !((#[trigger] t[k]) == '.' && t[k + 1] == ' ') by {
            assert(t[k] == s[k + 1] && t[k + 1] == s[k + 2]);
        }
        lemma_first_sentence_whole(t);
        assert(seq![s[0]] + t =~= s);
    }
}

/// The short help text is a prefix of the description, holds no full stop
/// followed by a space, does not end in a full stop, and is its own short
/// help text.
pub proof fn lemma_about_of_about(description: Seq<char>)
    ensures
        ({
            let about = trim_end_dots(first_sentence(description));
            &&& about.len() <= description.len()
            &&& about == description.take(about.len() as int)
            &&& no_sentence_break(about)
            &&& (about.len() == 0 || about.last() != '.')
            &&& trim_end_dots(first_sentence(about)) == about
        }),
{
    let f = first_sentence(description);
    lemma_first_sentence_facts(description);
    lemma_trim_end_dots_facts(f);
    let about = trim_end_dots(f);
    assert(about =~= description.take(about.len() as int));
    assert forall|k: int| 0 <= k && k + 1 < about.len() implies !((#[trigger] about[k]) == '.' && about[k + 1] == ' ') by {
        assert(about[k] == f[k] && about[k + 1] == f[k + 1]);
    }
    lemma_first_sentence_whole(about);
}

/// The character with ASCII letters `a` to `z` mapped to `A` to `Z`.
pub open spec fn ascii_upper_char(c: char) -> char {
    if 97 <= (c as int) <= 122 {
        ((c as int) - 32) as char
    } else {
        c
    }
}

/// `s` with ASCII letters in upper case.
pub open spec fn ascii_upper(s: Seq<char>) -> Seq<char> {
    s.map_values(|c: char| ascii_upper_char(c))
}

/// The upper case ASCII letters, in order.
pub open spec fn upper_letter(k: int) -> char {
    (65 + k) as char
}

/// `s` with ASCII letters in upper case, as `str::to_ascii_uppercase` makes it.
fn to_ascii_uppercase(s: &str) -> (res: String)
    ensures
        res@ == ascii_upper(s@),
{
    let letters = "ABCDEFGHIJKLMNOPQRSTUVWXYZ";
    proof {
        reveal_strlit("ABCDEFGHIJKLMNOPQRSTUVWXYZ");
        assert(forall|k: int| 0 <= k < 26 ==> #[trigger] letters@[k] == upper_letter(k)) by {
            assert(letters@ =~= seq!['A', 'B', 'C', 'D', 'E', 'F', 'G', 'H', 'I', 'J', 'K', 'L', 'M', 'N', 'O', 'P', 'Q', 'R', 'S', 'T', 'U', 'V', 'W', 'X', 'Y', 'Z']);
        }
    }
    let n = s.unicode_len();
    let mut res = String::new();
    let mut i: usize = 0;
    while i < n
        invariant
            n == s@.len(),
            i <= n,
            letters@.len() == 26,
            forall|k: int| 0 <= k < 26 ==> #[trigger] letters@[k] == upper_letter(k),
            res@ == ascii_upper(s@.take(i as int)),
        decreases n - i,
    {
        let c = s.get_char(i);
        let code = c as u32;
        assert(s@.take(i + 1) =~= s@.take(i as int).push(c));
        assert(ascii_upper(s@.take(i + 1)) =~= ascii_upper(s@.take(i as int)).push(ascii_upper_char(c)));
        if 97 <= code && code <= 122 {
            let k = (code - 97) as usize;
            let upper = letters.substring_char(k, k + 1);
            assert(upper@ =~= seq![letters@[k as int]]);
            assert(upper_letter(k as int) == ascii_upper_char(c));
            res.append(upper);
        } else {
            let same = s.substring_char(i, i + 1);
            assert(same@ =~= seq![c]);
            res.append(same);
        }
        i = i + 1;
    }
    assert(s@.take(n as int) =~= s@);
    res
}

/// `s` without its leading ampersands.
fn trim_start_ampersands_str(s: &str) -> (res: String)
    ensures
        res@ == trim_start_ampersands(s@),
{
    let n = s.unicode_len();
    let mut i: usize = 0;
    assert(s@.skip(0) =~= s@);
    while i < n && s.get_char(i) == '&'
        invariant
            n == s@.len(),
            i <= n,
            trim_start_ampersands(s@) == trim_start_ampersands(s@.skip(i as int)),
        decreases n - i,
    {
        assert(s@.skip(i as int).drop_first() =~= s@.skip(i + 1));
        i = i + 1;
    }
    assert(s@.skip(i as int) =~= s@.subrange(i as int, n as int));
    String::from_str(s.substring_char(i, n))
}

/// The optional text, or nothing.
pub open spec fn text_or_empty(o: Option<Seq<char>>) -> Seq<char> {
    match o {
        Some(t) => t,
        None => Seq::empty(),
    }
}

/// What the help text says that a method returns.
pub open spec fn response_text(method_command: Seq<char>, response_type: Option<Seq<char>>) -> Seq<char> {
    match response_type {
        Some(rt) => if method_command == "get"@ {
            if rt == "String"@ {
                "Returns a string."@
            } else if rt == "Vec<String>"@ {
                "Returns a list of identifiers."@
            } else {
                "Returns a formatted "@ + rt + "."@
            }
        } else {
            "Returns ok when "@ + rt + "."@
        },
        None => Seq::empty(),
    }
}

/// The help line of a parameter.
pub open spec fn parameter_line(p: (Seq<char>, Seq<char>, Option<Seq<char>>)) -> Seq<char> {
    "- "@ + p.0 + ": "@ + text_or_empty(p.2) + if p.1 == "&str"@ {
        Seq::<char>::empty()
    } else {
        " (string representing a "@ + trim_start_ampersands(p.1) + ")"@
    }
}

/// The help lines of the parameters.
pub open spec fn parameter_lines(ps: Seq<(Seq<char>, Seq<char>, Option<Seq<char>>)>) -> Seq<Seq<char>> {
    ps.map_values(|p: (Seq<char>, Seq<char>, Option<Seq<char>>)| parameter_line(p))
}

/// What the help text says of the request body, followed by the response text.
pub open spec fn body_text(body_type: Option<Seq<char>>, response: Seq<char>) -> Seq<char> {
    match body_type {
        Some(bt) => if bt == "String"@ {
            "Requires a string. This string can either be piped from another application, redirected from a file or provided by the user interactively. "@
                + response
        } else {
            "Requires string data representing a "@ + bt
                + ". This string data can either be piped from another application, redirected from a file or provided by the user interactively. "@
                + response
        },
        None => response,
    }
}

/// The paragraphs of the long help text of a method.
pub open spec fn long_about_parts(method_command: Seq<char>, d: MethodDescriptorView, description: Seq<char>) -> Seq<Seq<char>> {
    seq![ascii_upper(method_command) + " "@ + d.path, description]
        + (if d.parameters.len() == 0 {
            Seq::<Seq<char>>::empty()
        } else {
            seq!["Parameters:\n"@ + seq_join(parameter_lines(d.parameters), "\n"@)]
        })
        + seq![body_text(d.body_type, response_text(method_command, d.response_type))]
}

/// The long help text of an api method: the method and path, the
/// description, the parameters and what the method takes and returns, one
/// paragraph per line.
pub fn create_long_about(method_command: &str, method_descriptor: &MethodDescriptor, description: &str) -> (res: String)
    ensures
        res@ == seq_join(long_about_parts(method_command@, method_descriptor@, description@), "\n"@),
{
    proof {
        reveal_strlit("get");
        reveal_strlit("String");
        reveal_strlit("Vec<String>");
        reveal_strlit("&str");
    }
    let response = match &method_descriptor.response_type {
        Some(rt) => {
            if str_equal(method_command, "get") {
                if str_equal(rt.as_str(), "String") {
                    String::from_str("Returns a string.")
                } else if str_equal(rt.as_str(), "Vec<String>") {
                    String::from_str("Returns a list of identifiers.")
                } else {
                    let mut r = String::from_str("Returns a formatted ");
                    r.append(rt.as_str());
                    r.append(".");
                    r
                }
            } else {
                let mut r = String::from_str("Returns ok when ");
                r.append(rt.as_str());
                r.append(".");
                r
            }
        }
        None => String::new(),
    };
    assert(response@ == response_text(method_command@, method_descriptor@.response_type));
    let mut parts: Vec<String> = Vec::new();
    let mut header = to_ascii_uppercase(method_command);
    header.append(" ");
    header.append(method_descriptor.path.as_str());
    assert(header@ == ascii_upper(method_command@) + " "@ + method_descriptor@.path);
    parts.push(header);
    parts.push(String::from_str(description));
    let ghost first_two = views(parts@);
    let ghost ps = parameter_views(method_descriptor.parameters@);
    if method_descriptor.parameters.len() > 0 {
        let mut lines: Vec<String> = Vec::new();
        let mut i: usize = 0;
        while i < method_descriptor.parameters.len()
            invariant
                i <= method_descriptor.parameters.len(),
                ps == parameter_views(method_descriptor.parameters@),
                views(lines@) == parameter_lines(ps).take(i as int),
            decreases method_descriptor.parameters.len() - i,
        {
            proof {
                reveal_strlit("&str");
            }
            let p = &method_descriptor.parameters[i];
            assert(ps[i as int] == p@);
            let mut line = String::from_str("- ");
            line.append(p.name.as_str());
            line.append(": ");
            match &p.description {
                Some(d) => line.append(d.as_str()),
                None => {}
            }
            assert(line@ == "- "@ + p@.0 + ": "@ + text_or_empty(p@.2));
            if !str_equal(p.parameter_type.as_str(), "&str") {
                line.append(" (string representing a ");
                let t = trim_start_ampersands_str(p.parameter_type.as_str());
                line.append(t.as_str());
                line.append(")");
            }
            assert(line@ =~= parameter_line(p@));
            let ghost before = views(lines@);
            lines.push(line);
            assert(views(lines@) =~= before.push(parameter_line(ps[i as int])));
            assert(parameter_lines(ps).take(i + 1) =~= parameter_lines(ps).take(i as int).push(parameter_line(ps[i as int])));
            i = i + 1;
        }
        assert(parameter_lines(ps).take(ps.len() as int) =~= parameter_lines(ps));
        let mut text = String::from_str("Parameters:\n");
        let joined = join(&lines, "\n");
        text.append(joined.as_str());
        parts.push(text);
    } else {
        assert(views(parts@) =~= first_two);
    }
    assert(views(parts@) =~= first_two + (if ps.len() == 0 {
        Seq::<Seq<char>>::empty()
    } else {
        seq!["Parameters:\n"@ + seq_join(parameter_lines(ps), "\n"@)]
    }));
    let body = match &method_descriptor.body_type {
        Some(bt) => {
            if str_equal(bt.as_str(), "String") {
                let mut b = String::from_str(
                    "Requires a string. This string can either be piped from another application, redirected from a file or provided by the user interactively. ",
                );
                b.append(response.as_str());
                b
            } else {
                let mut b = String::from_str("Requires string data representing a ");
                b.append(bt.as_str());
                b.append(
                    ". This string data can either be piped from another application, redirected from a file or provided by the user interactively. ",
                );
                b.append(response.as_str());
                b
            }
        }
        None => response,
    };
    assert(body@ == body_text(method_descriptor@.body_type, response_text(method_command@, method_descriptor@.response_type)));
    parts.push(body);
    assert(views(parts@) =~= long_about_parts(method_command@, method_descriptor@, description@));
    join(&parts, "\n")
}


/// Selectors of a list of method descriptors.
pub open spec fn selectors(descriptors: Seq<(String, MethodDescriptor)>) -> Seq<Seq<char>> {
    descriptors.map_values(|e: (String, MethodDescriptor)| e.0@)
}

/// Index of the first selector equal to `query`, if any.
pub open spec fn first_index_of(sels: Seq<Seq<char>>, query: Seq<char>) -> Option<int>
    decreases sels.len(),
{
    if sels.len() == 0 {
        None
    } else if sels[0] == query {
        Some(0)
    } else {
        match first_index_of(sels.drop_first(), query) {
            Some(i) => Some(i + 1),
            None => None,
        }
    }
}

/// `first_index_of` finds the first match, and there is none when it finds none.
proof fn lemma_first_index_of(sels: Seq<Seq<char>>, query: Seq<char>)
    ensures
        match first_index_of(sels, query) {
            Some(i) => 0 <= i < sels.len() && sels[i] == query && forall|k: int| 0 <= k < i ==> sels[k] != query,
            None => forall|k: int| 0 <= k < sels.len() ==> sels[k] != query,
        },
    decreases sels.len(),
{
    if sels.len() > 0 && sels[0] != query {
        lemma_first_index_of(sels.drop_first(), query);
        assert forall|k: int| 1 <= k < sels.len() implies sels[k] == sels.drop_first()[k - 1] by {}
    }
}

/// The descriptor whose selector is `query`, else the first descriptor, as
/// `find_or_first` picks it.
pub fn find_method_descriptor<'a>(descriptors: &'a Vec<(String, MethodDescriptor)>, query_selector: &str) -> (res: Option<&'a MethodDescriptor>)
    ensures
        match res {
            Some(d) => match first_index_of(selectors(descriptors@), query_selector@) {
                Some(i) => *d == descriptors@[i].1,
                None => *d == descriptors@[0].1,
            },
            None => descriptors.len() == 0,
        },
{
    proof {
        lemma_first_index_of(selectors(descriptors@), query_selector@);
    }
    let mut i: usize = 0;
    while i < descriptors.len()
        invariant
            i <= descriptors.len(),
            forall|k: int| 0 <= k < i ==> selectors(descriptors@)[k] != query_selector@,
        decreases descriptors.len() - i,
    {
        if str_equal(descriptors[i].0.as_str(), query_selector) {
            assert(selectors(descriptors@)[i as int] == query_selector@);
            proof {
                lemma_first_index_of(selectors(descriptors@), query_selector@);
            }
            return Some(&descriptors[i].1);
        }
        i = i + 1;
    }
    if descriptors.len() == 0 {
        None
    } else {
        Some(&descriptors[0].1)
    }
}

/// A command line argument of a selector command: its name, the name of its
/// value and its help text. Every such argument is required and takes a
/// non-empty string.
pub struct CommandArgument {
    pub name: String,
    pub value_name: String,
    pub help: Option<String>,
}

impl View for CommandArgument {
    type V = (Seq<char>, Seq<char>, Option<Seq<char>>);

    open spec fn view(&self) -> (Seq<char>, Seq<char>, Option<Seq<char>>) {
        (self.name@, self.value_name@, opt_text(self.help))
    }
}

/// The command for one selector of an api method.
pub struct SelectorCommand {
    pub name: String,
    pub alias: String,
    pub about: Option<String>,
    pub long_about: Option<String>,
    pub arguments: Vec<CommandArgument>,
}

/// The mathematical view of a [`SelectorCommand`].
pub struct SelectorCommandView {
    pub name: Seq<char>,
    pub alias: Seq<char>,
    pub about: Option<Seq<char>>,
    pub long_about: Option<Seq<char>>,
    pub arguments: Seq<(Seq<char>, Seq<char>, Option<Seq<char>>)>,
}

impl View for SelectorCommand {
    type V = SelectorCommandView;

    open spec fn view(&self) -> SelectorCommandView {
        SelectorCommandView {
            name: self.name@,
            alias: self.alias@,
            about: opt_text(self.about),
            long_about: opt_text(self.long_about),
            arguments: self.arguments@.map_values(|a: CommandArgument| a@),
        }
    }
}

/// The argument for a parameter: named after it, with its name in upper
/// case as value name and its description as help.
pub open spec fn parameter_argument(p: (Seq<char>, Seq<char>, Option<Seq<char>>)) -> (Seq<char>, Seq<char>, Option<Seq<char>>) {
    (p.0, ascii_upper(p.0), p.2)
}

/// The command for `selector` of `method_command`, described by `d`.
pub open spec fn selector_command(method_command: Seq<char>, selector: Seq<char>, d: MethodDescriptorView) -> SelectorCommandView {
    SelectorCommandView {
        name: selector,
        alias: d.path,
        about: match d.description {
            Some(x) => Some(trim_end_dots(first_sentence(x))),
            None => None,
        },
        long_about: match d.description {
            Some(x) => Some(seq_join(long_about_parts(method_command, d, x), "\n"@)),
            None => None,
        },
        arguments: d.parameters.map_values(|p: (Seq<char>, Seq<char>, Option<Seq<char>>)| parameter_argument(p)),
    }
}

/// The command for one selector of an api method: named after the
/// selector, with the path as alias, the help texts made from the
/// description and a required argument per parameter.
pub fn create_generic_capability_selector_command(method_command: &str, selector: &str, method_descriptor: &MethodDescriptor) -> (c: SelectorCommand)
    ensures
        c@ == selector_command(method_command@, selector@, method_descriptor@),
{
    let (about, long_about) = match &method_descriptor.description {
        Some(description) => (
            Some(create_about(description.as_str())),
            Some(create_long_about(method_command, method_descriptor, description.as_str())),
        ),
        None => (None, None),
    };
    let mut arguments: Vec<CommandArgument> = Vec::new();
    let ghost ps = parameter_views(method_descriptor.parameters@);
    let mut i: usize = 0;
    while i < method_descriptor.parameters.len()
        invariant
            i <= method_descriptor.parameters.len(),
            ps == parameter_views(method_descriptor.parameters@),
            arguments@.map_values(|a: CommandArgument| a@)
                == ps.take(i as int).map_values(|p: (Seq<char>, Seq<char>, Option<Seq<char>>)| parameter_argument(p)),
        decreases method_descriptor.parameters.len() - i,
    {
        let p = &method_descriptor.parameters[i];
        let help = match &p.description {
            Some(d) => Some(d.clone()),
            None => None,
        };
        let a = CommandArgument { name: p.name.clone(), value_name: to_ascii_uppercase(p.name.as_str()), help };
        assert(ps[i as int] == p@);
        assert(a@ == parameter_argument(p@));
        let ghost before = arguments@.map_values(|a: CommandArgument| a@);
        arguments.push(a);
        assert(arguments@.map_values(|a: CommandArgument| a@) =~= before.push(parameter_argument(p@)));
        assert(ps.take(i + 1).map_values(|p: (Seq<char>, Seq<char>, Option<Seq<char>>)| parameter_argument(p))
            =~= ps.take(i as int).map_values(|p: (Seq<char>, Seq<char>, Option<Seq<char>>)| parameter_argument(p)).push(parameter_argument(p@)));
        i = i + 1;
    }
    assert(ps.take(ps.len() as int) =~= ps);
    SelectorCommand { name: String::from_str(selector), alias: method_descriptor.path.clone(), about, long_about, arguments }
}

/// The capability for an api method: its help texts and a command per selector.
pub struct GenericCapability {
    pub command: String,
    pub about: String,
    pub long_about: String,
    pub subcommands: Vec<SelectorCommand>,
}

/// The methods of the api that have capabilities.
pub open spec fn supported_method(method: Seq<char>) -> bool {
    method == "delete"@ || method == "get"@ || method == "head"@ || method == "patch"@ || method == "post"@ || method == "put"@
}

/// The capability for `method`, one of the methods of the api, with a
/// command for every selector in `descriptors`, in their order.
pub fn create_generic_capability(method: &str, about: &str, long_about: &str, descriptors: &Vec<(String, MethodDescriptor)>) -> (c: GenericCapability)
    requires
        supported_method(method@),
    ensures
        c.command@ == method@,
        c.about@ == about@,
        c.long_about@ == long_about@,
        c.subcommands@.len() == descriptors.len(),
        forall|i: int| 0 <= i < descriptors.len() ==>
            (#[trigger] c.subcommands@[i])@ == selector_command(method@, descriptors@[i].0@, descriptors@[i].1@),
{
    let mut subcommands: Vec<SelectorCommand> = Vec::new();
    let mut i: usize = 0;
    while i < descriptors.len()
        invariant
            i <= descriptors.len(),
            subcommands@.len() == i,
            forall|k: int| 0 <= k < i ==>
                (#[trigger] subcommands@[k])@ == selector_command(method@, descriptors@[k].0@, descriptors@[k].1@),
        decreases descriptors.len() - i,
    {
        let c = create_generic_capability_selector_command(method, descriptors[i].0.as_str(), &descriptors[i].1);
        subcommands.push(c);
        i = i + 1;
    }
    GenericCapability {
        command: String::from_str(method),
        about: String::from_str(about),
        long_about: String::from_str(long_about),
        subcommands,
    }
}

} // verus!
