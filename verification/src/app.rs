//! The interface state machine: the messages the interface emits, the
//! application state they act on, and the effect each message asks the
//! surrounding runtime to perform.
//!
//! The runtime around this library owns the window, the widgets and the
//! asynchronous executor. It feeds every emitted [`Message`] to
//! [`AppState::update`], applies the state change this library decides, and
//! performs the returned [`Effect`], feeding the resulting message back in.

use crate::package::Package;
use vstd::prelude::*;

verus! {

/// The persisted application configuration. It carries no settings yet; it
/// exists so that configuration updates flow through the state machine like
/// every other message.
#[derive(Clone, Copy, Debug, Default, PartialEq, Eq, Structural)]
pub struct Config {}

/// The page shown in the context drawer.
#[derive(Clone, Copy, Debug, Default, PartialEq, Eq, Structural)]
pub enum ContextPage {
    #[default]
    About,
}

/// The title of a context page.
pub open spec fn spec_title(page: ContextPage) -> Seq<char> {
    match page {
        ContextPage::About => "About"@,
    }
}

impl ContextPage {
    /// The title shown above this context page.
    pub fn title(&self) -> (t: String)
        ensures
            t@ == spec_title(*self),
    {
        match self {
            ContextPage::About => "About".to_owned(),
        }
    }
}

/// Messages emitted by the application and its widgets.
#[derive(Debug, Clone)]
pub enum Message {
    /// The repository link in the about page was pressed.
    OpenRepositoryUrl,
    /// The demonstration subscription channel delivered its one message.
    SubscriptionChannel,
    /// A menu entry asked for a context page.
    ToggleContextPage(ContextPage),
    /// The configuration watcher delivered a new configuration.
    UpdateConfig(Config),
    /// The select-file button was pressed.
    SelectFile,
    /// The selected package should become the displayed one.
    UpdatePackage(Package),
    /// The install button was pressed for this package.
    AskPermissions(Package),
    /// The file chooser finished, with the chosen package if any.
    CheckInstalled(Option<Package>),
    /// The install flow finished; the payload says whether the package is
    /// now installed.
    PackageInstalled(bool),
}

/// An action of a menu entry.
#[derive(Clone, Copy, Debug, PartialEq, Eq, Structural)]
pub enum MenuAction {
    /// Show the about page.
    About,
}

impl MenuAction {
    /// The message this menu action emits.
    pub fn message(&self) -> (m: Message)
        ensures
            m == Message::ToggleContextPage(ContextPage::About),
    {
        match self {
            MenuAction::About => Message::ToggleContextPage(ContextPage::About),
        }
    }
}

/// What `update` asks the surrounding runtime to do. Exactly one effect
/// comes back from each message; `Nothing` stands for no work at all.
#[derive(Debug, Clone)]
pub enum Effect {
    /// No background work.
    Nothing,
    /// Open the repository page in the user's browser.
    OpenRepository,
    /// Run the file-chooser portal; feed its result back as
    /// `Message::CheckInstalled`.
    OpenFileChooser,
    /// Set the context drawer's title to this text.
    SetContextTitle(String),
    /// Feed this message back into `update` at once.
    Dispatch(Message),
    /// Run the authorization and install flow for this package; feed a
    /// successful outcome back as `Message::PackageInstalled`, and drop a
    /// failed one.
    GrantPermissions(Package),
}

/// The application state this library owns: which context page is
/// requested and whether the drawer shows it, the persisted configuration,
/// the chosen package, and whether that package is installed.
#[derive(Debug, Clone)]
pub struct AppState {
    pub context_page: ContextPage,
    pub show_context: bool,
    pub config: Config,
    pub package: Option<Package>,
    pub is_installed: bool,
}

impl AppState {
    /// The state at startup: the default context page with the drawer
    /// closed, the given configuration, no package chosen, and the install
    /// button disabled (nothing to install counts as installed).
    pub fn init(config: Config) -> (s: AppState)
        ensures
            s.context_page == ContextPage::About,
            !s.show_context,
            s.config == config,
            s.package is None,
            s.is_installed,
    {
        AppState {
            context_page: ContextPage::About,
            show_context: false,
            config,
            package: None,
            is_installed: true,
        }
    }

    /// Whether the install action is offered: a package is chosen and not
    /// yet installed. The front end enables the install button exactly on
    /// this condition.
    pub fn install_available(&self) -> (r: bool)
        ensures
            r == (self.package is Some && !self.is_installed),
    {
        self.package.is_some() && !self.is_installed
    }

    /// Handles one message: applies its state change and returns the effect
    /// the runtime must perform.
    ///
    /// Toggling the already-shown context page flips the drawer; another
    /// page is shown at once. A chosen package replaces the displayed one
    /// and its install flag. A finished install flow updates the install
    /// flag alone. The remaining messages leave the state untouched and
    /// only ask for their effect.
    pub fn update(&mut self, message: Message) -> (effect: Effect)
        ensures
            match message {
                Message::OpenRepositoryUrl => *final(self) == *old(self) && effect
                    == Effect::OpenRepository,
                Message::SubscriptionChannel => *final(self) == *old(self) && effect
                    == Effect::Nothing,
                Message::ToggleContextPage(page) => {
                    &&& final(self).context_page == page
                    &&& final(self).show_context == (if old(self).context_page == page {
                        !old(self).show_context
                    } else {
                        true
                    })
                    &&& final(self).config == old(self).config
                    &&& final(self).package == old(self).package
                    &&& final(self).is_installed == old(self).is_installed
                    &&& effect matches Effect::SetContextTitle(t) && t@ == spec_title(page)
                },
                Message::UpdateConfig(config) => {
                    &&& final(self).config == config
                    &&& final(self).context_page == old(self).context_page
                    &&& final(self).show_context == old(self).show_context
                    &&& final(self).package == old(self).package
                    &&& final(self).is_installed == old(self).is_installed
                    &&& effect == Effect::Nothing
                },
                Message::SelectFile => *final(self) == *old(self) && effect
                    == Effect::OpenFileChooser,
                Message::UpdatePackage(package) => {
                    &&& final(self).is_installed == package.is_installed
                    &&& final(self).package == Some(package)
                    &&& final(self).context_page == old(self).context_page
                    &&& final(self).show_context == old(self).show_context
                    &&& final(self).config == old(self).config
                    &&& effect == Effect::Nothing
                },
                Message::AskPermissions(package) => *final(self) == *old(self) && effect
                    == Effect::GrantPermissions(package),
                Message::CheckInstalled(found) => *final(self) == *old(self) && match found {
                    Some(package) => effect == Effect::Dispatch(Message::UpdatePackage(package)),
                    None => effect == Effect::Nothing,
                },
                Message::PackageInstalled(status) => {
                    &&& final(self).is_installed == status
                    &&& final(self).package == old(self).package
                    &&& final(self).context_page == old(self).context_page
                    &&& final(self).show_context == old(self).show_context
                    &&& final(self).config == old(self).config
                    &&& effect == Effect::Nothing
                },
            },
    {
        match message {
            Message::OpenRepositoryUrl => Effect::OpenRepository,
            Message::SubscriptionChannel => Effect::Nothing,
            Message::ToggleContextPage(page) => {
                if self.context_page == page {
                    // Close the context drawer if the toggled page is the
                    // one already shown.
                    self.show_context = !self.show_context;
                } else {
                    // Open the context drawer on the requested page.
                    self.context_page = page;
                    self.show_context = true;
                }
                Effect::SetContextTitle(page.title())
            },
            Message::UpdateConfig(config) => {
                self.config = config;
                Effect::Nothing
            },
            Message::SelectFile => Effect::OpenFileChooser,
            Message::UpdatePackage(package) => {
                self.is_installed = package.is_installed;
                self.package = Some(package);
                Effect::Nothing
            },
            Message::AskPermissions(package) => Effect::GrantPermissions(package),
            Message::CheckInstalled(found) => match found {
                Some(package) => Effect::Dispatch(Message::UpdatePackage(package)),
                None => Effect::Nothing,
            },
            Message::PackageInstalled(status) => {
                self.is_installed = status;
                Effect::Nothing
            },
        }
    }
}

} // verus!
