//! Commands: what a user asks of the runtime, how a command is written down
//! as a text for the daemon, and how such a text is read again.

use vstd::prelude::*;
use crate::error::Failure;
use crate::pattern::{find, group, group_text, regex_captures};
use crate::text::str_eq;

verus! {

/// What to do with an image.
#[derive(Clone, Debug, PartialEq, Eq)]
pub enum ImageAction {
    Pull { image_id: String },
    List,
    Delete { image_id: String },
}

/// What to do with a container.
#[derive(Clone, Debug, PartialEq, Eq)]
pub enum ContainerAction {
    Create { container_name: String, image_id: String },
    Run {
        container_name: String,
        volume: Option<String>,
        host_ip: Option<String>,
        container_ip: Option<String>,
    },
    Open { container_name: String },
    Stop { container_name: String },
    List,
    Delete { container_name: String },
}

/// A command on images or on containers.
#[derive(Clone, Debug, PartialEq, Eq)]
pub enum Subcommand {
    Image { action: ImageAction },
    Container { action: ContainerAction },
}

/// A call of the runtime: its switches and its command.
#[derive(Clone, Debug, PartialEq, Eq)]
pub struct Opt {
    /// Go through the daemon; without a command, be the daemon.
    pub daemon: bool,
    /// Tell the daemon to stop.
    pub exit: bool,
    pub debug: bool,
    pub log_level: String,
    pub subcommand: Option<Subcommand>,
}

/// A command that is due, and whether it goes through the daemon.
#[derive(Clone, Debug, PartialEq, Eq)]
pub struct Command {
    pub daemon: bool,
    pub subcommand: Subcommand,
}

/// An action on an image, with its texts as sequences of characters.
pub enum ImageActionView {
    Pull { image_id: Seq<char> },
    List,
    Delete { image_id: Seq<char> },
}

/// An action on a container, with its texts as sequences of characters.
pub enum ContainerActionView {
    Create { container_name: Seq<char>, image_id: Seq<char> },
    Run {
        container_name: Seq<char>,
        volume: Option<Seq<char>>,
        host_ip: Option<Seq<char>>,
        container_ip: Option<Seq<char>>,
    },
    Open { container_name: Seq<char> },
    Stop { container_name: Seq<char> },
    List,
    Delete { container_name: Seq<char> },
}

/// A command, with its texts as sequences of characters.
pub enum SubcommandView {
    Image { action: ImageActionView },
    Container { action: ContainerActionView },
}

/// A call, with its texts as sequences of characters.
pub struct OptView {
    pub daemon: bool,
    pub exit: bool,
    pub debug: bool,
    pub log_level: Seq<char>,
    pub subcommand: Option<SubcommandView>,
}

impl DeepView for ImageAction {
    type V = ImageActionView;

    open spec fn deep_view(&self) -> ImageActionView {
        match *self {
            ImageAction::Pull { image_id } => ImageActionView::Pull { image_id: image_id@ },
            ImageAction::List => ImageActionView::List,
            ImageAction::Delete { image_id } => ImageActionView::Delete { image_id: image_id@ },
        }
    }
}

impl DeepView for ContainerAction {
    type V = ContainerActionView;

    open spec fn deep_view(&self) -> ContainerActionView {
        match *self {
            ContainerAction::Create { container_name, image_id } => ContainerActionView::Create {
                container_name: container_name@,
                image_id: image_id@,
            },
            ContainerAction::Run {
                container_name,
                volume,
                host_ip,
                container_ip,
            } => ContainerActionView::Run {
                container_name: container_name@,
                volume: volume.deep_view(),
                host_ip: host_ip.deep_view(),
                container_ip: container_ip.deep_view(),
            },
            ContainerAction::Open { container_name } => ContainerActionView::Open {
                container_name: container_name@,
            },
            ContainerAction::Stop { container_name } => ContainerActionView::Stop {
                container_name: container_name@,
            },
            ContainerAction::List => ContainerActionView::List,
            ContainerAction::Delete { container_name } => ContainerActionView::Delete {
                container_name: container_name@,
            },
        }
    }
}

impl DeepView for Subcommand {
    type V = SubcommandView;

    open spec fn deep_view(&self) -> SubcommandView {
        match *self {
            Subcommand::Image { action } => SubcommandView::Image { action: action.deep_view() },
            Subcommand::Container { action } => SubcommandView::Container {
                action: action.deep_view(),
            },
        }
    }
}

impl DeepView for Opt {
    type V = OptView;

    open spec fn deep_view(&self) -> OptView {
        OptView {
            daemon: self.daemon,
            exit: self.exit,
            debug: self.debug,
            log_level: self.log_level@,
            subcommand: self.subcommand.deep_view(),
        }
    }
}

/// The pattern of a call.
pub open spec fn opt_pattern() -> Seq<char> {
    r#"(?:Opt \{ daemon: )(true|false)(?:, exit: )(true|false)(?:, debug: )(true|false)(?:, log_level: ")([^"]*)(?:", subcommand: )(None|.+)(?: \})"#@
}

/// The pattern of a command.
pub open spec fn subcommand_pattern() -> Seq<char> {
    r#"((?:Some\()(.+)(?:\))|None)"#@
}

/// The pattern of a command on images.
pub open spec fn image_pattern() -> Seq<char> {
    r#"(?:Image \{ action: )(List|Pull(?: \{ image_id: ")(.+)(?:" \})|Delete(?: \{ image_id: ")(.+)(?:" \}))(?: \})"#@
}

/// The pattern of a command on containers.
pub open spec fn container_pattern() -> Seq<char> {
    r#"(?:Container \{ action: )(Create(?: \{ container_name: ")([^"]+)(?:", image_id: ")([^"]+)(?:" \})|Run(?: \{ container_name: ")([^"]+)(?:", volume: )(Some\(".+"\)|None)(?:, host_ip: )(Some\(".+"\)|None)(?:, container_ip: )(Some\(".+"\)|None)(?: \})|Open(?: \{ container_name: ")([^"]+)(?:" \})|Stop(?: \{ container_name: ")([^"]+)(?:" \})|Delete(?: \{ container_name: ")([^"]+)(?:" \})|List)(?: \})"#@
}

/// The pattern of an optional text.
pub open spec fn option_pattern() -> Seq<char> {
    r#"(?:Some\("(.+)"\))"#@
}

/// Whether `text` begins with the character `c`.
pub open spec fn begins_with(text: Seq<char>, c: char) -> bool {
    text.len() > 0 && text[0] == c
}

fn first_is(text: &str, c: char) -> (r: bool)
    ensures
        r == begins_with(text@, c),
{
    text.unicode_len() > 0 && text.get_char(0) == c
}

/// The optional text that the capture groups of the pattern of an optional
/// text stand for.
pub open spec fn option_of(found: Option<Option<Seq<Option<Seq<char>>>>>) -> Option<Seq<char>> {
    match found {
        Some(Some(groups)) => Some(group_text(groups, 1)),
        _ => None,
    }
}

/// The action on an image that the capture groups of its pattern stand for.
pub open spec fn image_action_of(groups: Seq<Option<Seq<char>>>) -> Result<
    ImageActionView,
    Failure,
> {
    let action = group_text(groups, 1);
    if begins_with(action, 'P') {
        Ok(ImageActionView::Pull { image_id: group_text(groups, 2) })
    } else if begins_with(action, 'D') {
        Ok(ImageActionView::Delete { image_id: group_text(groups, 3) })
    } else if begins_with(action, 'L') {
        Ok(ImageActionView::List)
    } else {
        Err(Failure::BadAction)
    }
}

/// The action on an image that `text` writes down.
pub open spec fn parsed_image_action(text: Seq<char>) -> Result<ImageActionView, Failure> {
    match regex_captures(image_pattern(), text) {
        None => Err(Failure::BadPattern),
        Some(None) => Err(Failure::BadAction),
        Some(Some(groups)) => image_action_of(groups),
    }
}

/// The action on a container that the capture groups of its pattern stand
/// for; the optional texts of a run are read by the pattern of their own.
pub open spec fn container_action_of(groups: Seq<Option<Seq<char>>>) -> Result<
    ContainerActionView,
    Failure,
> {
    let action = group_text(groups, 1);
    if begins_with(action, 'C') {
        Ok(
            ContainerActionView::Create {
                container_name: group_text(groups, 2),
                image_id: group_text(groups, 3),
            },
        )
    } else if begins_with(action, 'R') {
        Ok(
            ContainerActionView::Run {
                container_name: group_text(groups, 4),
                volume: option_of(regex_captures(option_pattern(), group_text(groups, 5))),
                host_ip: option_of(regex_captures(option_pattern(), group_text(groups, 6))),
                container_ip: option_of(regex_captures(option_pattern(), group_text(groups, 7))),
            },
        )
    } else if begins_with(action, 'O') {
        Ok(ContainerActionView::Open { container_name: group_text(groups, 8) })
    } else if begins_with(action, 'S') {
        Ok(ContainerActionView::Stop { container_name: group_text(groups, 9) })
    } else if begins_with(action, 'D') {
        Ok(ContainerActionView::Delete { container_name: group_text(groups, 10) })
    } else if begins_with(action, 'L') {
        Ok(ContainerActionView::List)
    } else {
        Err(Failure::BadAction)
    }
}

/// The action on a container that `text` writes down.
pub open spec fn parsed_container_action(text: Seq<char>) -> Result<ContainerActionView, Failure> {
    match regex_captures(container_pattern(), text) {
        None => Err(Failure::BadPattern),
        Some(None) => Err(Failure::BadAction),
        Some(Some(groups)) => container_action_of(groups),
    }
}

/// The command that the capture groups of its pattern stand for.
pub open spec fn subcommand_of(groups: Seq<Option<Seq<char>>>) -> Result<SubcommandView, Failure> {
    let inner = group_text(groups, 2);
    if begins_with(inner, 'I') {
        match parsed_image_action(inner) {
            Ok(action) => Ok(SubcommandView::Image { action }),
            Err(e) => Err(e),
        }
    } else if begins_with(inner, 'C') {
        match parsed_container_action(inner) {
            Ok(action) => Ok(SubcommandView::Container { action }),
            Err(e) => Err(e),
        }
    } else {
        Err(Failure::BadSubcommand)
    }
}

/// The command that `text` writes down.
pub open spec fn parsed_subcommand(text: Seq<char>) -> Result<SubcommandView, Failure> {
    if text == "None"@ {
        Err(Failure::NoSubcommand)
    } else {
        match regex_captures(subcommand_pattern(), text) {
            None => Err(Failure::BadPattern),
            Some(None) => Err(Failure::BadSubcommand),
            Some(Some(groups)) => subcommand_of(groups),
        }
    }
}

/// The call that the capture groups of its pattern stand for. A command
/// that cannot be read leaves the call without one.
pub open spec fn opt_of(groups: Seq<Option<Seq<char>>>) -> OptView {
    OptView {
        daemon: group_text(groups, 1) == "true"@,
        exit: group_text(groups, 2) == "true"@,
        debug: group_text(groups, 3) == "true"@,
        log_level: group_text(groups, 4),
        subcommand: match parsed_subcommand(group_text(groups, 5)) {
            Ok(subcommand) => Some(subcommand),
            Err(_) => None,
        },
    }
}

/// The call that `text` writes down.
pub open spec fn parsed_opt(text: Seq<char>) -> Result<OptView, Failure> {
    match regex_captures(opt_pattern(), text) {
        None => Err(Failure::BadPattern),
        Some(None) => Err(Failure::BadCommand),
        Some(Some(groups)) => Ok(opt_of(groups)),
    }
}

/// The optional text that was found by the pattern of an optional text:
/// what its first group holds, or nothing where the pattern did not match.
pub fn option_from_groups(found: Option<Vec<Option<String>>>) -> (r: Option<String>)
    ensures
        r.deep_view() == option_of(Some(found.deep_view())),
{
    match found {
        Some(groups) => Some(group(&groups, 1)),
        None => None,
    }
}

/// Read an optional text: `Some("..")` gives what stands between the
/// quotes, anything else gives nothing.
pub fn option_from_str(option: &str) -> (r: Option<String>)
    ensures
        r.deep_view() == option_of(regex_captures(option_pattern(), option@)),
{
    match find(r#"(?:Some\("(.+)"\))"#, option) {
        Ok(found) => option_from_groups(found),
        Err(_) => None,
    }
}

impl ImageAction {
    /// The action that the capture groups stand for.
    pub fn from_groups(groups: &Vec<Option<String>>) -> (r: Result<ImageAction, Failure>)
        ensures
            match image_action_of(groups.deep_view()) {
                Ok(action) => r matches Ok(a) && a.deep_view() == action,
                Err(e) => r == Err::<ImageAction, Failure>(e),
            },
    {
        let action = group(groups, 1);
        if first_is(action.as_str(), 'P') {
            Ok(ImageAction::Pull { image_id: group(groups, 2) })
        } else if first_is(action.as_str(), 'D') {
            Ok(ImageAction::Delete { image_id: group(groups, 3) })
        } else if first_is(action.as_str(), 'L') {
            Ok(ImageAction::List)
        } else {
            Err(Failure::BadAction)
        }
    }

    /// Read an action on an image.
    pub fn from_str(opt_str: &str) -> (r: Result<ImageAction, Failure>)
        ensures
            match parsed_image_action(opt_str@) {
                Ok(action) => r matches Ok(a) && a.deep_view() == action,
                Err(e) => r == Err::<ImageAction, Failure>(e),
            },
    {
        match find(
            r#"(?:Image \{ action: )(List|Pull(?: \{ image_id: ")(.+)(?:" \})|Delete(?: \{ image_id: ")(.+)(?:" \}))(?: \})"#,
            opt_str,
        ) {
            Err(e) => Err(e),
            Ok(None) => Err(Failure::BadAction),
            Ok(Some(groups)) => Self::from_groups(&groups),
        }
    }
}

impl ContainerAction {
    /// The action that the capture groups stand for.
    pub fn from_groups(groups: &Vec<Option<String>>) -> (r: Result<ContainerAction, Failure>)
        ensures
            match container_action_of(groups.deep_view()) {
                Ok(action) => r matches Ok(a) && a.deep_view() == action,
                Err(e) => r == Err::<ContainerAction, Failure>(e),
            },
    {
        let action = group(groups, 1);
        if first_is(action.as_str(), 'C') {
            Ok(
                ContainerAction::Create {
                    container_name: group(groups, 2),
                    image_id: group(groups, 3),
                },
            )
        } else if first_is(action.as_str(), 'R') {
            Ok(
                ContainerAction::Run {
                    container_name: group(groups, 4),
                    volume: option_from_str(group(groups, 5).as_str()),
                    host_ip: option_from_str(group(groups, 6).as_str()),
                    container_ip: option_from_str(group(groups, 7).as_str()),
                },
            )
        } else if first_is(action.as_str(), 'O') {
            Ok(ContainerAction::Open { container_name: group(groups, 8) })
        } else if first_is(action.as_str(), 'S') {
            Ok(ContainerAction::Stop { container_name: group(groups, 9) })
        } else if first_is(action.as_str(), 'D') {
            Ok(ContainerAction::Delete { container_name: group(groups, 10) })
        } else if first_is(action.as_str(), 'L') {
            Ok(ContainerAction::List)
        } else {
            Err(Failure::BadAction)
        }
    }

    /// Read an action on a container.
    pub fn from_str(opt_str: &str) -> (r: Result<ContainerAction, Failure>)
        ensures
            match parsed_container_action(opt_str@) {
                Ok(action) => r matches Ok(a) && a.deep_view() == action,
                Err(e) => r == Err::<ContainerAction, Failure>(e),
            },
    {
        match find(
            r#"(?:Container \{ action: )(Create(?: \{ container_name: ")([^"]+)(?:", image_id: ")([^"]+)(?:" \})|Run(?: \{ container_name: ")([^"]+)(?:", volume: )(Some\(".+"\)|None)(?:, host_ip: )(Some\(".+"\)|None)(?:, container_ip: )(Some\(".+"\)|None)(?: \})|Open(?: \{ container_name: ")([^"]+)(?:" \})|Stop(?: \{ container_name: ")([^"]+)(?:" \})|Delete(?: \{ container_name: ")([^"]+)(?:" \})|List)(?: \})"#,
            opt_str,
        ) {
            Err(e) => Err(e),
            Ok(None) => Err(Failure::BadAction),
            Ok(Some(groups)) => Self::from_groups(&groups),
        }
    }
}

impl Subcommand {
    /// The command that the capture groups stand for.
    pub fn from_groups(groups: &Vec<Option<String>>) -> (r: Result<Subcommand, Failure>)
        ensures
            match subcommand_of(groups.deep_view()) {
                Ok(subcommand) => r matches Ok(s) && s.deep_view() == subcommand,
                Err(e) => r == Err::<Subcommand, Failure>(e),
            },
    {
        let inner = group(groups, 2);
        if first_is(inner.as_str(), 'I') {
            match ImageAction::from_str(inner.as_str()) {
                Ok(action) => Ok(Subcommand::Image { action }),
                Err(e) => Err(e),
            }
        } else if first_is(inner.as_str(), 'C') {
            match ContainerAction::from_str(inner.as_str()) {
                Ok(action) => Ok(Subcommand::Container { action }),
                Err(e) => Err(e),
            }
        } else {
            Err(Failure::BadSubcommand)
        }
    }

    /// Read a command.
    pub fn from_str(opt_str: &str) -> (r: Result<Subcommand, Failure>)
        ensures
            match parsed_subcommand(opt_str@) {
                Ok(subcommand) => r matches Ok(s) && s.deep_view() == subcommand,
                Err(e) => r == Err::<Subcommand, Failure>(e),
            },
    {
        if str_eq(opt_str, "None") {
            return Err(Failure::NoSubcommand);
        }
        match find(r#"((?:Some\()(.+)(?:\))|None)"#, opt_str) {
            Err(e) => Err(e),
            Ok(None) => Err(Failure::BadSubcommand),
            Ok(Some(groups)) => Self::from_groups(&groups),
        }
    }
}

impl Opt {
    /// The call that the capture groups stand for.
    pub fn from_groups(groups: &Vec<Option<String>>) -> (r: Opt)
        ensures
            r.deep_view() == opt_of(groups.deep_view()),
    {
        let subcommand = match Subcommand::from_str(group(groups, 5).as_str()) {
            Ok(subcommand) => Some(subcommand),
            Err(_) => None,
        };
        Opt {
            daemon: str_eq(group(groups, 1).as_str(), "true"),
            exit: str_eq(group(groups, 2).as_str(), "true"),
            debug: str_eq(group(groups, 3).as_str(), "true"),
            log_level: group(groups, 4),
            subcommand,
        }
    }

    /// Read a call from the text that `encode` writes.
    pub fn from_str(opt_str: &str) -> (r: Result<Opt, Failure>)
        ensures
            match parsed_opt(opt_str@) {
                Ok(opt) => r matches Ok(o) && o.deep_view() == opt,
                Err(e) => r == Err::<Opt, Failure>(e),
            },
    {
        match find(
            r#"(?:Opt \{ daemon: )(true|false)(?:, exit: )(true|false)(?:, debug: )(true|false)(?:, log_level: ")([^"]*)(?:", subcommand: )(None|.+)(?: \})"#,
            opt_str,
        ) {
            Err(e) => Err(e),
            Ok(None) => Err(Failure::BadCommand),
            Ok(Some(groups)) => Ok(Self::from_groups(&groups)),
        }
    }
}

/// An optional text, written down.
pub open spec fn encoded_option(option: Option<Seq<char>>) -> Seq<char> {
    match option {
        Some(text) => "Some(\""@ + text + "\")"@,
        None => "None"@,
    }
}

/// An action on an image, written down.
pub open spec fn encoded_image_action(action: ImageActionView) -> Seq<char> {
    match action {
        ImageActionView::Pull { image_id } => "Pull { image_id: \""@ + image_id + "\" }"@,
        ImageActionView::List => "List"@,
        ImageActionView::Delete { image_id } => "Delete { image_id: \""@ + image_id + "\" }"@,
    }
}

/// An action on a container, written down.
pub open spec fn encoded_container_action(action: ContainerActionView) -> Seq<char> {
    match action {
        ContainerActionView::Create { container_name, image_id } => "Create { container_name: \""@
            + container_name + "\", image_id: \""@ + image_id + "\" }"@,
        ContainerActionView::Run { container_name, volume, host_ip, container_ip } =>
            "Run { container_name: \""@ + container_name + "\", volume: "@ + encoded_option(volume)
                + ", host_ip: "@ + encoded_option(host_ip) + ", container_ip: "@ + encoded_option(
                container_ip,
            ) + " }"@,
        ContainerActionView::Open { container_name } => "Open { container_name: \""@
            + container_name + "\" }"@,
        ContainerActionView::Stop { container_name } => "Stop { container_name: \""@
            + container_name + "\" }"@,
        ContainerActionView::List => "List"@,
        ContainerActionView::Delete { container_name } => "Delete { container_name: \""@
            + container_name + "\" }"@,
    }
}

/// A command, written down.
pub open spec fn encoded_subcommand(subcommand: SubcommandView) -> Seq<char> {
    match subcommand {
        SubcommandView::Image { action } => "Image { action: "@ + encoded_image_action(action)
            + " }"@,
        SubcommandView::Container { action } => "Container { action: "@
            + encoded_container_action(action) + " }"@,
    }
}

/// A switch, written down.
pub open spec fn encoded_bool(b: bool) -> Seq<char> {
    if b {
        "true"@
    } else {
        "false"@
    }
}

/// A call, written down.
pub open spec fn encoded_opt(opt: OptView) -> Seq<char> {
    "Opt { daemon: "@ + encoded_bool(opt.daemon) + ", exit: "@ + encoded_bool(opt.exit)
        + ", debug: "@ + encoded_bool(opt.debug) + ", log_level: \""@ + opt.log_level
        + "\", subcommand: "@ + match opt.subcommand {
        Some(subcommand) => "Some("@ + encoded_subcommand(subcommand) + ")"@,
        None => "None"@,
    } + " }"@
}

fn push_option(out: &mut String, option: &Option<String>)
    ensures
        final(out)@ == old(out)@ + encoded_option(option.deep_view()),
{
    match option {
        Some(text) => {
            out.append("Some(\"");
            out.append(text.as_str());
            out.append("\")");
            assert(out@ =~= old(out)@ + encoded_option(option.deep_view()));
        },
        None => {
            out.append("None");
        },
    }
}

fn push_bool(out: &mut String, b: bool)
    ensures
        final(out)@ == old(out)@ + encoded_bool(b),
{
    if b {
        out.append("true");
    } else {
        out.append("false");
    }
}

fn quoted(head: &str, text: &str, tail: &str) -> (r: String)
    ensures
        r@ == head@ + text@ + tail@,
{
    let mut out = String::from_str(head);
    out.append(text);
    out.append(tail);
    out
}

impl ImageAction {
    /// Write the action down.
    pub fn encode(&self) -> (r: String)
        ensures
            r@ == encoded_image_action(self.deep_view()),
    {
        match self {
            ImageAction::Pull { image_id } => quoted(
                "Pull { image_id: \"",
                image_id.as_str(),
                "\" }",
            ),
            ImageAction::List => String::from_str("List"),
            ImageAction::Delete { image_id } => quoted(
                "Delete { image_id: \"",
                image_id.as_str(),
                "\" }",
            ),
        }
    }
}

impl ContainerAction {
    /// Write the action down.
    pub fn encode(&self) -> (r: String)
        ensures
            r@ == encoded_container_action(self.deep_view()),
    {
        match self {
            ContainerAction::Create { container_name, image_id } => {
                let mut out = String::from_str("Create { container_name: \"");
                out.append(container_name.as_str());
                out.append("\", image_id: \"");
                out.append(image_id.as_str());
                out.append("\" }");
                out
            },
            ContainerAction::Run { container_name, volume, host_ip, container_ip } => {
                let mut out = String::from_str("Run { container_name: \"");
                out.append(container_name.as_str());
                out.append("\", volume: ");
                push_option(&mut out, volume);
                out.append(", host_ip: ");
                push_option(&mut out, host_ip);
                out.append(", container_ip: ");
                push_option(&mut out, container_ip);
                out.append(" }");
                assert(out@ =~= encoded_container_action(self.deep_view()));
                out
            },
            ContainerAction::Open { container_name } => quoted(
                "Open { container_name: \"",
                container_name.as_str(),
                "\" }",
            ),
            ContainerAction::Stop { container_name } => quoted(
                "Stop { container_name: \"",
                container_name.as_str(),
                "\" }",
            ),
            ContainerAction::List => String::from_str("List"),
            ContainerAction::Delete { container_name } => quoted(
                "Delete { container_name: \"",
                container_name.as_str(),
                "\" }",
            ),
        }
    }
}

impl Subcommand {
    /// Write the command down.
    pub fn encode(&self) -> (r: String)
        ensures
            r@ == encoded_subcommand(self.deep_view()),
    {
        match self {
            Subcommand::Image { action } => quoted(
                "Image { action: ",
                action.encode().as_str(),
                " }",
            ),
            Subcommand::Container { action } => quoted(
                "Container { action: ",
                action.encode().as_str(),
                " }",
            ),
        }
    }
}

impl Opt {
    /// Write the call down, as the daemon reads it.
    pub fn encode(&self) -> (r: String)
        ensures
            r@ == encoded_opt(self.deep_view()),
    {
        let mut out = String::from_str("Opt { daemon: ");
        push_bool(&mut out, self.daemon);
        out.append(", exit: ");
        push_bool(&mut out, self.exit);
        out.append(", debug: ");
        push_bool(&mut out, self.debug);
        out.append(", log_level: \"");
        out.append(self.log_level.as_str());
        out.append("\", subcommand: ");
        match &self.subcommand {
            Some(subcommand) => {
                out.append("Some(");
                out.append(subcommand.encode().as_str());
                out.append(")");
            },
            None => {
                out.append("None");
            },
        }
        out.append(" }");
        assert(out@ =~= encoded_opt(self.deep_view()));
        out
    }
}

fn same_option(a: &Option<String>, b: &Option<String>) -> (r: bool)
    ensures
        r == (a.deep_view() == b.deep_view()),
{
    match (a, b) {
        (Some(x), Some(y)) => str_eq(x.as_str(), y.as_str()),
        (None, None) => true,
        _ => false,
    }
}

impl ImageAction {
    /// Whether the two actions are the same.
    pub fn same(&self, other: &ImageAction) -> (r: bool)
        ensures
            r == (self.deep_view() == other.deep_view()),
    {
        match (self, other) {
            (ImageAction::Pull { image_id: a }, ImageAction::Pull { image_id: b }) => str_eq(
                a.as_str(),
                b.as_str(),
            ),
            (ImageAction::List, ImageAction::List) => true,
            (ImageAction::Delete { image_id: a }, ImageAction::Delete { image_id: b }) => str_eq(
                a.as_str(),
                b.as_str(),
            ),
            _ => false,
        }
    }
}

impl ContainerAction {
    /// Whether the two actions are the same.
    pub fn same(&self, other: &ContainerAction) -> (r: bool)
        ensures
            r == (self.deep_view() == other.deep_view()),
    {
        match (self, other) {
            (
                ContainerAction::Create { container_name: a, image_id: i },
                ContainerAction::Create { container_name: b, image_id: j },
            ) => str_eq(a.as_str(), b.as_str()) && str_eq(i.as_str(), j.as_str()),
            (
                ContainerAction::Run { container_name: a, volume: v, host_ip: h, container_ip: c },
                ContainerAction::Run { container_name: b, volume: w, host_ip: g, container_ip: d },
            ) => str_eq(a.as_str(), b.as_str()) && same_option(v, w) && same_option(h, g)
                && same_option(c, d),
            (
                ContainerAction::Open { container_name: a },
                ContainerAction::Open { container_name: b },
            ) => str_eq(a.as_str(), b.as_str()),
            (
                ContainerAction::Stop { container_name: a },
                ContainerAction::Stop { container_name: b },
            ) => str_eq(a.as_str(), b.as_str()),
            (ContainerAction::List, ContainerAction::List) => true,
            (
                ContainerAction::Delete { container_name: a },
                ContainerAction::Delete { container_name: b },
            ) => str_eq(a.as_str(), b.as_str()),
            _ => false,
        }
    }
}

impl Subcommand {
    /// Whether the two commands are the same.
    pub fn same(&self, other: &Subcommand) -> (r: bool)
        ensures
            r == (self.deep_view() == other.deep_view()),
    {
        match (self, other) {
            (Subcommand::Image { action: a }, Subcommand::Image { action: b }) => a.same(b),
            (Subcommand::Container { action: a }, Subcommand::Container { action: b }) => a.same(
                b,
            ),
            _ => false,
        }
    }
}

impl Opt {
    /// Whether the two calls are the same.
    pub fn same(&self, other: &Opt) -> (r: bool)
        ensures
            r == (self.deep_view() == other.deep_view()),
    {
        let commands = match (&self.subcommand, &other.subcommand) {
            (Some(a), Some(b)) => a.same(b),
            (None, None) => true,
            _ => false,
        };
        self.daemon == other.daemon && self.exit == other.exit && self.debug == other.debug
            && str_eq(self.log_level.as_str(), other.log_level.as_str()) && commands
    }
}

/// The command that a call asks for; a call without one is refused.
pub fn run_command(opt: Opt) -> (r: Result<Command, Failure>)
    ensures
        match opt.subcommand {
            Some(subcommand) => r == Ok::<Command, Failure>(
                Command { daemon: opt.daemon, subcommand },
            ),
            None => r == Err::<Command, Failure>(Failure::NoSubcommand),
        },
{
    match opt.subcommand {
        Some(subcommand) => Ok(Command { daemon: opt.daemon, subcommand }),
        None => Err(Failure::NoSubcommand),
    }
}

/// The command that the text of a call asks for.
pub fn run_command_from_string(opt_str: &str) -> (r: Result<Command, Failure>)
    ensures
        match parsed_opt(opt_str@) {
            Err(e) => r == Err::<Command, Failure>(e),
            Ok(opt) => match opt.subcommand {
                None => r == Err::<Command, Failure>(Failure::NoSubcommand),
                Some(subcommand) => r matches Ok(c) && c.daemon == opt.daemon
                    && c.subcommand.deep_view() == subcommand,
            },
        },
{
    match Opt::from_str(opt_str) {
        Ok(opt) => run_command(opt),
        Err(e) => Err(e),
    }
}

} // verus!
