//! Installing the file system, managing its files, and taking it out again.
//!
//! Both installing and taking out alternate with calls to SQLite's registry and
//! to JavaScript. Each step here says which call is due, and takes what came of
//! it.

use crate::error::{error, text_outcome, unit_outcome, ErrorView, VfsError, VfsErrorCode};
use crate::naming::{directory, directory_path, physical_name};
use crate::store::{deletion, no_files, State, StateView};
use crate::text::has_character;
use rsqlite_vfs::RegisterVfsError;
use vstd::prelude::*;

verus! {

/// `rsqlite_vfs::RegisterVfsError`: why SQLite's registry refused.
#[verifier::external_type_specification]
#[verifier::external_body]
pub struct ExRegisterVfsError(RegisterVfsError);

/// Why the name of a file system cannot be registered.
pub enum RegistrationError {
    /// The name is empty.
    EmptyName,
    /// The name holds a NUL and cannot be handed to SQLite.
    ToCStr,
    /// The name is taken.
    NameConflict(String),
    /// SQLite's registry refused.
    Sqlite(RegisterVfsError),
}

/// A failed installation or removal of the file system.
pub enum InstallError {
    Storage(VfsError),
    Registration(RegistrationError),
}

/// What an [`InstallError`] says.
pub enum InstallErrorView {
    Storage(ErrorView),
    EmptyName,
    ToCStr,
    NameConflict(Seq<char>),
    Sqlite(RegisterVfsError),
}

impl View for InstallError {
    type V = InstallErrorView;

    open spec fn view(&self) -> InstallErrorView {
        match *self {
            InstallError::Storage(e) => InstallErrorView::Storage(e@),
            InstallError::Registration(RegistrationError::EmptyName) => InstallErrorView::EmptyName,
            InstallError::Registration(RegistrationError::ToCStr) => InstallErrorView::ToCStr,
            InstallError::Registration(
                RegistrationError::NameConflict(name),
            ) => InstallErrorView::NameConflict(name@),
            InstallError::Registration(RegistrationError::Sqlite(e)) => InstallErrorView::Sqlite(e),
        }
    }
}

/// How far an installation has come.
pub enum Installation {
    /// The registry is being asked whether the name is taken.
    LookingUp { name: String, directory: String, default_vfs: bool },
    /// The directory is being leased.
    Acquiring { name: String, default_vfs: bool },
    /// The directory is leased, and the name is being registered.
    Registering,
    /// The name was refused, and the lease is being given back.
    Releasing(RegisterVfsError),
    /// The file system is installed.
    Installed,
    /// The installation failed.
    Failed,
}

/// What is known of an installation.
pub enum InstallationView {
    LookingUp { name: Seq<char>, directory: Seq<char>, default_vfs: bool },
    Acquiring { name: Seq<char>, default_vfs: bool },
    Registering,
    Releasing(RegisterVfsError),
    Installed,
    Failed,
}

impl View for Installation {
    type V = InstallationView;

    open spec fn view(&self) -> InstallationView {
        match *self {
            Installation::LookingUp {
                name,
                directory,
                default_vfs,
            } => InstallationView::LookingUp { name: name@, directory: directory@, default_vfs },
            Installation::Acquiring { name, default_vfs } => InstallationView::Acquiring {
                name: name@,
                default_vfs,
            },
            Installation::Registering => InstallationView::Registering,
            Installation::Releasing(e) => InstallationView::Releasing(e),
            Installation::Installed => InstallationView::Installed,
            Installation::Failed => InstallationView::Failed,
        }
    }
}

impl InstallationView {
    /// Whether the lease of the directory is held.
    pub open spec fn leased(self) -> bool {
        self is Registering || self is Releasing || self is Installed
    }

    /// Whether this is what the installation waits for.
    pub open spec fn awaits(self, event: InstallEventView) -> bool {
        match self {
            InstallationView::LookingUp { .. } => event is LookedUp,
            InstallationView::Acquiring { .. } => event is Acquired,
            InstallationView::Registering => event is Registered,
            InstallationView::Releasing(_) => event is Released,
            InstallationView::Installed => false,
            InstallationView::Failed => false,
        }
    }

    /// How many calls are due at most before it ends.
    pub open spec fn remaining(self) -> nat {
        match self {
            InstallationView::LookingUp { .. } => 4,
            InstallationView::Acquiring { .. } => 3,
            InstallationView::Registering => 2,
            InstallationView::Releasing(_) => 1,
            InstallationView::Installed => 0,
            InstallationView::Failed => 0,
        }
    }
}

/// The call that is due next, or the end of the installation.
pub enum InstallAction {
    /// Ask SQLite's registry whether this name is taken.
    LookUp(String),
    /// Lease this directory.
    Acquire(String),
    /// Register the file system by this name, as the default one if asked for.
    Register { name: String, default_vfs: bool },
    /// Give the lease back, and wait until that is done.
    Release,
    /// The file system is installed.
    Finish,
    /// The installation failed.
    Fail(InstallError),
}

/// What an [`InstallAction`] says.
pub enum InstallActionView {
    LookUp(Seq<char>),
    Acquire(Seq<char>),
    Register { name: Seq<char>, default_vfs: bool },
    Release,
    Finish,
    Fail(InstallErrorView),
}

impl View for InstallAction {
    type V = InstallActionView;

    open spec fn view(&self) -> InstallActionView {
        match *self {
            InstallAction::LookUp(name) => InstallActionView::LookUp(name@),
            InstallAction::Acquire(path) => InstallActionView::Acquire(path@),
            InstallAction::Register { name, default_vfs } => InstallActionView::Register {
                name: name@,
                default_vfs,
            },
            InstallAction::Release => InstallActionView::Release,
            InstallAction::Finish => InstallActionView::Finish,
            InstallAction::Fail(e) => InstallActionView::Fail(e@),
        }
    }
}

/// What came of a call.
pub enum InstallEvent {
    /// Whether the name is taken.
    LookedUp(Result<bool, RegisterVfsError>),
    /// Whether the directory was leased.
    Acquired(Result<(), VfsError>),
    /// Whether the name was registered.
    Registered(Result<(), RegisterVfsError>),
    /// The lease was given back, or could not be.
    Released,
}

/// What an [`InstallEvent`] says.
pub enum InstallEventView {
    LookedUp(Result<bool, RegisterVfsError>),
    Acquired(Result<(), ErrorView>),
    Registered(Result<(), RegisterVfsError>),
    Released,
}

impl View for InstallEvent {
    type V = InstallEventView;

    open spec fn view(&self) -> InstallEventView {
        match *self {
            InstallEvent::LookedUp(r) => InstallEventView::LookedUp(r),
            InstallEvent::Acquired(r) => InstallEventView::Acquired(unit_outcome(r)),
            InstallEvent::Registered(r) => InstallEventView::Registered(r),
            InstallEvent::Released => InstallEventView::Released,
        }
    }
}

/// An installation that ends in an error.
pub open spec fn install_failure(e: InstallErrorView) -> (InstallationView, InstallActionView) {
    (InstallationView::Failed, InstallActionView::Fail(e))
}

/// How an installation begins.
pub open spec fn install_start(
    name: Seq<char>,
    directory: Seq<char>,
    default_vfs: bool,
) -> (InstallationView, InstallActionView) {
    if name.len() == 0 {
        install_failure(InstallErrorView::EmptyName)
    } else if name.contains('\0') {
        install_failure(InstallErrorView::ToCStr)
    } else {
        (
            InstallationView::LookingUp { name, directory, default_vfs },
            InstallActionView::LookUp(name),
        )
    }
}

/// How an installation goes on from what it waited for.
pub open spec fn install_next(stage: InstallationView, event: InstallEventView) -> (
    InstallationView,
    InstallActionView,
) {
    match (stage, event) {
        (
            InstallationView::LookingUp { name, directory, default_vfs },
            InstallEventView::LookedUp(found),
        ) => match found {
            Err(e) => install_failure(InstallErrorView::Sqlite(e)),
            Ok(true) => install_failure(InstallErrorView::NameConflict(name)),
            Ok(false) => match directory_path(directory) {
                Err(e) => install_failure(InstallErrorView::Storage(e)),
                Ok(path) => (
                    InstallationView::Acquiring { name, default_vfs },
                    InstallActionView::Acquire(path),
                ),
            },
        },
        (
            InstallationView::Acquiring { name, default_vfs },
            InstallEventView::Acquired(outcome),
        ) => match outcome {
            Err(e) => install_failure(InstallErrorView::Storage(e)),
            Ok(_) => (
                InstallationView::Registering,
                InstallActionView::Register { name, default_vfs },
            ),
        },
        (InstallationView::Registering, InstallEventView::Registered(outcome)) => match outcome {
            Err(e) => (InstallationView::Releasing(e), InstallActionView::Release),
            Ok(_) => (InstallationView::Installed, InstallActionView::Finish),
        },
        (InstallationView::Releasing(e), InstallEventView::Released) => install_failure(
            InstallErrorView::Sqlite(e),
        ),
        _ => (stage, InstallActionView::Finish),
    }
}

/// Begins to install the file system by a name in a directory of its own.
///
/// Names that SQLite cannot take are refused at once. A name that is taken is
/// refused before the directory is touched.
pub fn install(name: &str, directory: &str, default_vfs: bool) -> (r: (
    Installation,
    InstallAction,
))
    ensures
        (r.0@, r.1@) == install_start(name@, directory@, default_vfs),
{
    if name.is_empty() {
        return (
            Installation::Failed,
            InstallAction::Fail(InstallError::Registration(RegistrationError::EmptyName)),
        );
    }
    if has_character(name, '\0') {
        return (
            Installation::Failed,
            InstallAction::Fail(InstallError::Registration(RegistrationError::ToCStr)),
        );
    }
    (
        Installation::LookingUp {
            name: name.to_owned(),
            directory: directory.to_owned(),
            default_vfs,
        },
        InstallAction::LookUp(name.to_owned()),
    )
}

impl Installation {
    /// Whether this is what the installation waits for.
    pub fn awaits(&self, event: &InstallEvent) -> (r: bool)
        ensures
            r == self@.awaits(event@),
    {
        match (self, event) {
            (Installation::LookingUp { .. }, InstallEvent::LookedUp(_)) => true,
            (Installation::Acquiring { .. }, InstallEvent::Acquired(_)) => true,
            (Installation::Registering, InstallEvent::Registered(_)) => true,
            (Installation::Releasing(_), InstallEvent::Released) => true,
            _ => false,
        }
    }

    /// Takes what came of the call that was due, and says which one is due next.
    pub fn step(self, event: InstallEvent) -> (r: (Installation, InstallAction))
        requires
            self@.awaits(event@),
        ensures
            (r.0@, r.1@) == install_next(self@, event@),
    {
        match (self, event) {
            (
                Installation::LookingUp { name, directory: wanted, default_vfs },
                InstallEvent::LookedUp(found),
            ) => match found {
                Err(e) => (
                    Installation::Failed,
                    InstallAction::Fail(InstallError::Registration(RegistrationError::Sqlite(e))),
                ),
                Ok(true) => (
                    Installation::Failed,
                    InstallAction::Fail(
                        InstallError::Registration(RegistrationError::NameConflict(name)),
                    ),
                ),
                Ok(false) => match directory(wanted.as_str()) {
                    Err(e) => (Installation::Failed, InstallAction::Fail(InstallError::Storage(e))),
                    Ok(path) => (
                        Installation::Acquiring { name, default_vfs },
                        InstallAction::Acquire(path),
                    ),
                },
            },
            (
                Installation::Acquiring { name, default_vfs },
                InstallEvent::Acquired(outcome),
            ) => match outcome {
                Err(e) => (Installation::Failed, InstallAction::Fail(InstallError::Storage(e))),
                Ok(_) => (
                    Installation::Registering,
                    InstallAction::Register { name, default_vfs },
                ),
            },
            (Installation::Registering, InstallEvent::Registered(outcome)) => match outcome {
                Err(e) => (Installation::Releasing(e), InstallAction::Release),
                Ok(_) => (Installation::Installed, InstallAction::Finish),
            },
            (Installation::Releasing(e), _) => (
                Installation::Failed,
                InstallAction::Fail(InstallError::Registration(RegistrationError::Sqlite(e))),
            ),
            (stage, _) => (stage, InstallAction::Finish),
        }
    }
}

/// The owner of an installed file system.
///
/// Letting go of it leaves the file system installed: only
/// [`OpfsJspi::uninstall`] takes it out.
pub struct OpfsJspi {
    registered: bool,
}

impl View for OpfsJspi {
    type V = bool;

    /// Whether the file system is registered with SQLite.
    closed spec fn view(&self) -> bool {
        self.registered
    }
}

/// The refusal to manage files of a file system that was taken out.
pub open spec fn uninstalled() -> ErrorView {
    ErrorView { code: VfsErrorCode::Misuse, message: "VFS is uninstalled"@ }
}

/// The refusal to take the file system out while files are open.
pub open spec fn still_open() -> ErrorView {
    ErrorView { code: VfsErrorCode::Busy, message: "VFS has open files"@ }
}

/// What a request to remove a file answers.
pub open spec fn removal(registered: bool, state: StateView, name: Seq<char>) -> Result<
    Seq<char>,
    ErrorView,
> {
    if registered {
        deletion(state, name)
    } else {
        Err(uninstalled())
    }
}

/// What a request to look for a file answers.
pub open spec fn lookup(registered: bool, name: Seq<char>) -> Result<Seq<char>, ErrorView> {
    if registered {
        physical_name(name)
    } else {
        Err(uninstalled())
    }
}

/// What taking the file system out needs next.
#[derive(Clone, Copy, Debug, PartialEq, Eq, Structural)]
pub enum UninstallStep {
    /// Nothing: it is out already.
    Done,
    /// Unregister it. What came of that goes to [`OpfsJspi::unregistered`].
    Unregister,
}

/// What a request to take the file system out answers, and whether the file
/// system counts as registered afterwards.
pub open spec fn uninstallation(registered: bool, state: StateView) -> (
    bool,
    Result<UninstallStep, InstallErrorView>,
) {
    if state.file_count != 0 {
        (registered, Err(InstallErrorView::Storage(still_open())))
    } else if registered {
        (false, Ok(UninstallStep::Unregister))
    } else {
        (false, Ok(UninstallStep::Done))
    }
}

/// What the outcome of unregistering makes of a file system that is being
/// taken out, and whether it counts as registered afterwards.
pub open spec fn unregistration(registered: bool, outcome: Result<(), RegisterVfsError>) -> (
    bool,
    Result<(), InstallErrorView>,
) {
    match outcome {
        Ok(_) => (registered, Ok(())),
        Err(e) => (true, Err(InstallErrorView::Sqlite(e))),
    }
}

impl OpfsJspi {
    /// The owner of a file system that has just been registered.
    pub fn new() -> (vfs: OpfsJspi)
        ensures
            vfs@,
    {
        OpfsJspi { registered: true }
    }

    /// Whether the file system is registered.
    pub fn registered(&self) -> (r: bool)
        ensures
            r == self@,
    {
        self.registered
    }

    /// The name in OPFS of a closed file to remove. What SQLite keeps beside a
    /// database is not removed with it.
    pub fn remove(&self, state: &State, name: &str) -> (r: Result<String, VfsError>)
        ensures
            text_outcome(r) == removal(self@, state@, name@),
    {
        if !self.registered {
            return Err(error(VfsErrorCode::Misuse, "VFS is uninstalled"));
        }
        state.delete_file(name)
    }

    /// The name in OPFS of a file to look for. Whether it is there goes to
    /// [`State::finish_access`].
    pub fn contains(&self, state: &State, name: &str) -> (r: Result<String, VfsError>)
        ensures
            text_outcome(r) == lookup(self@, name@),
    {
        if !self.registered {
            return Err(error(VfsErrorCode::Misuse, "VFS is uninstalled"));
        }
        state.access(name)
    }

    /// Begins to take the file system out, unless a file is open. A file system
    /// that is out already stays out.
    pub fn uninstall(&mut self, state: &State) -> (r: Result<UninstallStep, InstallError>)
        ensures
            uninstallation(old(self)@, state@) == (
                final(self)@,
                match r {
                    Ok(step) => Ok::<UninstallStep, InstallErrorView>(step),
                    Err(e) => Err(e@),
                },
            ),
    {
        if state.file_count() != 0 {
            return Err(InstallError::Storage(error(VfsErrorCode::Busy, "VFS has open files")));
        }
        if !self.registered {
            return Ok(UninstallStep::Done);
        }
        self.registered = false;
        Ok(UninstallStep::Unregister)
    }

    /// Takes what came of unregistering. After a success the lease is to be
    /// given back; after a failure the file system is installed as before.
    pub fn unregistered(&mut self, outcome: Result<(), RegisterVfsError>) -> (r: Result<
        (),
        InstallError,
    >)
        ensures
            unregistration(old(self)@, outcome) == (
                final(self)@,
                match r {
                    Ok(_) => Ok::<(), InstallErrorView>(()),
                    Err(e) => Err(e@),
                },
            ),
    {
        match outcome {
            Ok(_) => Ok(()),
            Err(e) => {
                self.registered = true;
                Err(InstallError::Registration(RegistrationError::Sqlite(e)))
            },
        }
    }

    /// Takes what came of giving the lease back, which ends the removal. The
    /// file system is out even where that failed.
    pub fn released(&self, outcome: Result<(), VfsError>) -> (r: Result<(), InstallError>)
        ensures
            r == (match outcome {
                Ok(_) => Ok::<(), InstallError>(()),
                Err(e) => Err(InstallError::Storage(e)),
            }),
    {
        match outcome {
            Ok(_) => Ok(()),
            Err(e) => Err(InstallError::Storage(e)),
        }
    }
}

/// Whether the event is what comes of the call.
pub open spec fn answers(event: InstallEventView, action: InstallActionView) -> bool {
    match action {
        InstallActionView::LookUp(_) => event is LookedUp,
        InstallActionView::Acquire(_) => event is Acquired,
        InstallActionView::Register { .. } => event is Registered,
        InstallActionView::Release => event is Released,
        InstallActionView::Finish => false,
        InstallActionView::Fail(_) => false,
    }
}

/// An installation waits for what comes of the call it asked for, from its
/// beginning and after every step.
pub proof fn law_awaits_the_call_due(
    name: Seq<char>,
    directory: Seq<char>,
    default_vfs: bool,
    stage: InstallationView,
    before: InstallEventView,
    event: InstallEventView,
)
    requires
        stage.awaits(before),
    ensures
        install_start(name, directory, default_vfs).0.awaits(event) == answers(
            event,
            install_start(name, directory, default_vfs).1,
        ),
        install_next(stage, before).0.awaits(event) == answers(
            event,
            install_next(stage, before).1,
        ),
{
}

/// Every step brings an installation nearer to its end, and at its end it has
/// either failed or succeeded.
pub proof fn law_installation_ends(stage: InstallationView, event: InstallEventView)
    requires
        stage.awaits(event),
    ensures
        install_next(stage, event).0.remaining() < stage.remaining(),
        install_next(stage, event).0.remaining() == 0 <==> (install_next(stage, event).1 is Finish
            || install_next(stage, event).1 is Fail),
{
}

/// An installation holds the lease exactly from the moment that the directory
/// was leased until the lease was given back: a failed one never holds it, one
/// that succeeded does.
pub proof fn law_lease(
    name: Seq<char>,
    directory: Seq<char>,
    default_vfs: bool,
    stage: InstallationView,
    event: InstallEventView,
)
    requires
        stage.awaits(event),
    ensures
        !install_start(name, directory, default_vfs).0.leased(),
        !stage.leased() && install_next(stage, event).0.leased() <==> event is Acquired
            && event->Acquired_0 is Ok,
        stage.leased() && !install_next(stage, event).0.leased() <==> event is Released,
        install_next(stage, event).1 is Fail ==> !install_next(stage, event).0.leased(),
        install_next(stage, event).1 is Finish ==> install_next(stage, event).0.leased(),
{
}

/// The directory is touched only once the name is known to be acceptable and
/// free and the directory to be normal, and it is then the normal form of the
/// directory that is leased.
pub proof fn law_refused_before_leasing(
    name: Seq<char>,
    directory: Seq<char>,
    default_vfs: bool,
    found: Result<bool, RegisterVfsError>,
)
    ensures
        ({
            let (stage, action) = install_start(name, directory, default_vfs);
            let (_, next) = install_next(stage, InstallEventView::LookedUp(found));
            &&& !(action is Acquire)
            &&& action is LookUp <==> name.len() > 0 && !name.contains('\0')
            &&& action is LookUp ==> (next is Acquire <==> found == Ok::<bool, RegisterVfsError>(
                false,
            ) && directory_path(directory) is Ok)
            &&& action is LookUp && next is Acquire ==> directory_path(directory) == Ok::<
                Seq<char>,
                ErrorView,
            >(next->Acquire_0)
        }),
{
}

/// An acceptable name that is registered already is refused, whatever the
/// directory: nothing is leased, and the refusal names it.
pub proof fn law_taken_name_is_refused(name: Seq<char>, directory: Seq<char>, default_vfs: bool)
    requires
        name.len() > 0,
        !name.contains('\0'),
    ensures
        install_start(name, directory, default_vfs).1 == InstallActionView::LookUp(name),
        install_next(
            install_start(name, directory, default_vfs).0,
            InstallEventView::LookedUp(Ok(true)),
        ) == install_failure(InstallErrorView::NameConflict(name)),
        !install_failure(InstallErrorView::NameConflict(name)).0.leased(),
{
}

/// The file system is refused to be taken out exactly while a file is open; it
/// then stays as it was.
pub proof fn law_uninstall_when_closed(registered: bool, state: StateView)
    ensures
        uninstallation(registered, state).1 is Err <==> state.file_count > 0,
        uninstallation(registered, state).1 is Err ==> uninstallation(registered, state).0
            == registered,
        state == no_files() ==> uninstallation(registered, state).1 is Ok,
{
}

/// Where unregistering fails the file system is installed as before: files can
/// be managed, and taking it out can be tried again.
pub proof fn law_failed_uninstall(state: StateView, name: Seq<char>, e: RegisterVfsError)
    requires
        state.file_count == 0,
    ensures
        ({
            let begun = uninstallation(true, state).0;
            let (after, r) = unregistration(begun, Err(e));
            &&& r == Err::<(), InstallErrorView>(InstallErrorView::Sqlite(e))
            &&& after
            &&& removal(after, state, name) == deletion(state, name)
            &&& uninstallation(after, state) == uninstallation(true, state)
        }),
{
}

/// Once the file system is out, every request to manage a file is refused as a
/// misuse, and taking it out once more does nothing.
pub proof fn law_uninstalled(state: StateView, later: StateView, name: Seq<char>)
    requires
        state.file_count == 0,
        later.file_count == 0,
    ensures
        ({
            let begun = uninstallation(true, state).0;
            let (after, r) = unregistration(begun, Ok(()));
            &&& r is Ok
            &&& removal(after, later, name) == Err::<Seq<char>, ErrorView>(uninstalled())
            &&& lookup(after, name) == Err::<Seq<char>, ErrorView>(uninstalled())
            &&& uninstallation(after, later) == (
                after,
                Ok::<UninstallStep, InstallErrorView>(UninstallStep::Done),
            )
        }),
{
}

/// An installation begins by asking for the name, unless SQLite cannot take it:
/// an empty one, or one with a NUL in it, fails at once.
pub proof fn law_installation_begins(name: Seq<char>, directory: Seq<char>, default_vfs: bool)
    ensures
        ({
            let action = install_start(name, directory, default_vfs).1;
            &&& name.len() == 0 ==> action == InstallActionView::Fail(InstallErrorView::EmptyName)
            &&& name.len() > 0 && name.contains('\0') ==> action == InstallActionView::Fail(
                InstallErrorView::ToCStr,
            )
            &&& name.len() > 0 && !name.contains('\0') ==> action == InstallActionView::LookUp(
                name,
            )
        }),
{
}

/// An installation to whose calls nothing is refused asks for the name, leases
/// the normal form of the directory, registers the name, as the default exactly
/// if that was asked for, and succeeds.
pub proof fn law_installation_succeeds(
    name: Seq<char>,
    directory: Seq<char>,
    path: Seq<char>,
    default_vfs: bool,
)
    requires
        name.len() > 0,
        !name.contains('\0'),
        directory_path(directory) == Ok::<Seq<char>, ErrorView>(path),
    ensures
        ({
            let (asking, first) = install_start(name, directory, default_vfs);
            let (leasing, second) = install_next(asking, InstallEventView::LookedUp(Ok(false)));
            let (naming, third) = install_next(leasing, InstallEventView::Acquired(Ok(())));
            let (done, last) = install_next(naming, InstallEventView::Registered(Ok(())));
            &&& first == InstallActionView::LookUp(name)
            &&& second == InstallActionView::Acquire(path)
            &&& third == InstallActionView::Register { name, default_vfs }
            &&& last == InstallActionView::Finish
            &&& done == InstallationView::Installed
        }),
{
}

/// An installation fails at the first call that is refused, with what that was
/// refused for; where the name could not be registered, the lease is given back
/// before.
pub proof fn law_installation_fails(
    name: Seq<char>,
    directory: Seq<char>,
    default_vfs: bool,
    refusal: RegisterVfsError,
    failure: ErrorView,
)
    requires
        name.len() > 0,
        !name.contains('\0'),
    ensures
        ({
            let asking = install_start(name, directory, default_vfs).0;
            let (leasing, second) = install_next(asking, InstallEventView::LookedUp(Ok(false)));
            let naming = install_next(leasing, InstallEventView::Acquired(Ok(()))).0;
            let (giving, fourth) = install_next(
                naming,
                InstallEventView::Registered(Err(refusal)),
            );
            &&& install_next(asking, InstallEventView::LookedUp(Err(refusal))).1
                == InstallActionView::Fail(InstallErrorView::Sqlite(refusal))
            &&& directory_path(directory) matches Err(e) ==> second == InstallActionView::Fail(
                InstallErrorView::Storage(e),
            )
            &&& directory_path(directory) is Ok ==> {
                &&& install_next(leasing, InstallEventView::Acquired(Err(failure))).1
                    == InstallActionView::Fail(InstallErrorView::Storage(failure))
                &&& fourth == InstallActionView::Release
                &&& install_next(giving, InstallEventView::Released).1 == InstallActionView::Fail(
                    InstallErrorView::Sqlite(refusal),
                )
            }
        }),
{
}

/// While the file system is installed, a request to look for a file or to remove
/// it speaks of the file named; a file that is open can be looked for but not
/// removed. Once it is out, either is refused.
pub proof fn law_manages_what_is_named(registered: bool, state: StateView, name: Seq<char>)
    ensures
        registered ==> lookup(registered, name) == physical_name(name),
        registered ==> (removal(registered, state, name) is Ok <==> physical_name(name) is Ok
            && !state.open.contains_key(name)),
        registered && removal(registered, state, name) is Ok ==> removal(registered, state, name)
            == physical_name(name),
        registered && state.open.contains_key(name) ==> (removal(registered, state, name)
            matches Err(e) && e.code == VfsErrorCode::IoDelete),
        !registered ==> removal(registered, state, name) == Err::<Seq<char>, ErrorView>(
            ErrorView { code: VfsErrorCode::Misuse, message: "VFS is uninstalled"@ },
        ),
        !registered ==> lookup(registered, name) == Err::<Seq<char>, ErrorView>(
            ErrorView { code: VfsErrorCode::Misuse, message: "VFS is uninstalled"@ },
        ),
{
}

/// Taking out is refused as busy while a file is open; otherwise the file system
/// is unregistered exactly if it was registered, and it is out from then on
/// unless unregistering fails, which is reported.
pub proof fn law_uninstalls(registered: bool, state: StateView, e: RegisterVfsError)
    ensures
        state.file_count > 0 ==> uninstallation(registered, state) == (
            registered,
            Err::<UninstallStep, InstallErrorView>(
                InstallErrorView::Storage(
                    ErrorView { code: VfsErrorCode::Busy, message: "VFS has open files"@ },
                ),
            ),
        ),
        state.file_count == 0 ==> !uninstallation(registered, state).0,
        state.file_count == 0 && registered ==> uninstallation(registered, state).1 == Ok::<
            UninstallStep,
            InstallErrorView,
        >(UninstallStep::Unregister),
        state.file_count == 0 && !registered ==> uninstallation(registered, state).1 == Ok::<
            UninstallStep,
            InstallErrorView,
        >(UninstallStep::Done),
        unregistration(registered, Ok(())) == (registered, Ok::<(), InstallErrorView>(())),
        unregistration(registered, Err(e)) == (
            true,
            Err::<(), InstallErrorView>(InstallErrorView::Sqlite(e)),
        ),
{
}

/// An installation waits for any outcome of the call it asked for, and for
/// nothing else; one that has ended waits for nothing.
pub proof fn law_waits_for_any_outcome(
    stage: InstallationView,
    found: Result<bool, RegisterVfsError>,
    leased: Result<(), ErrorView>,
    named: Result<(), RegisterVfsError>,
)
    ensures
        stage.awaits(InstallEventView::LookedUp(found)) <==> stage is LookingUp,
        stage.awaits(InstallEventView::Acquired(leased)) <==> stage is Acquiring,
        stage.awaits(InstallEventView::Registered(named)) <==> stage is Registering,
        stage.awaits(InstallEventView::Released) <==> stage is Releasing,
{
}

/// An action says the call to make and what to hand to it.
pub proof fn law_actions_say_what_they_hold(action: InstallAction)
    ensures
        match action {
            InstallAction::LookUp(name) => action@ == InstallActionView::LookUp(name@),
            InstallAction::Acquire(path) => action@ == InstallActionView::Acquire(path@),
            InstallAction::Register { name, default_vfs } => action@
                == (InstallActionView::Register { name: name@, default_vfs }),
            InstallAction::Release => action@ is Release,
            InstallAction::Finish => action@ is Finish,
            InstallAction::Fail(e) => action@ == InstallActionView::Fail(e@),
        },
{
}

/// A failure of an installation says which one it is.
pub proof fn law_install_errors_say_what_they_hold(e: InstallError)
    ensures
        match e {
            InstallError::Storage(failure) => e@ == InstallErrorView::Storage(failure@),
            InstallError::Registration(refusal) => match refusal {
                RegistrationError::EmptyName => e@ is EmptyName,
                RegistrationError::ToCStr => e@ is ToCStr,
                RegistrationError::NameConflict(name) => e@ == InstallErrorView::NameConflict(
                    name@,
                ),
                RegistrationError::Sqlite(code) => e@ == InstallErrorView::Sqlite(code),
            },
        },
{
}

/// An event says what came of the call, and a stage what it waits for.
pub proof fn law_events_say_what_they_hold(event: InstallEvent, stage: Installation)
    ensures
        match event {
            InstallEvent::LookedUp(found) => event@ == InstallEventView::LookedUp(found),
            InstallEvent::Acquired(Ok(_)) => event@ == InstallEventView::Acquired(Ok(())),
            InstallEvent::Acquired(Err(e)) => event@ == InstallEventView::Acquired(Err(e@)),
            InstallEvent::Registered(named) => event@ == InstallEventView::Registered(named),
            InstallEvent::Released => event@ is Released,
        },
        match stage {
            Installation::LookingUp { name, directory, default_vfs } => stage@
                == (InstallationView::LookingUp {
                name: name@,
                directory: directory@,
                default_vfs,
            }),
            Installation::Acquiring { name, default_vfs } => stage@
                == (InstallationView::Acquiring { name: name@, default_vfs }),
            Installation::Registering => stage@ is Registering,
            Installation::Releasing(e) => stage@ == InstallationView::Releasing(e),
            Installation::Installed => stage@ is Installed,
            Installation::Failed => stage@ is Failed,
        },
{
}

} // verus!
