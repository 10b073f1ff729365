//! The choices a command line makes, checked before any request is sent.
use vstd::prelude::*;
use crate::ids::{AbsoluteInventoryPath, EmailAddress, OneTimePassword, Password, RecordId, UserId};
use crate::session::{LoginInfo, UserIdentifyPointer};

verus! {

/// When output is coloured.
#[derive(Clone, Copy, Debug, PartialEq, Eq, Structural)]
pub enum ColorPolicy {
    Always,
    Auto,
    Never,
}

/// The platform that the inventory lives on.
#[derive(Clone, Copy, Debug, PartialEq, Eq, Hash, Structural)]
pub enum Platform {
    Neos,
    Resonite,
}

/// How much is logged.
#[derive(Clone, Copy, Debug, PartialEq, Eq, Structural)]
pub enum LogLevel {
    /// Nothing is logged.
    Off,
    Error,
    Warn,
    Info,
    Debug,
}

/// What the command line asks for.
#[derive(Debug)]
pub enum ToolSubCommand {
    /// List the children of a directory.
    List { max_depth: usize, target_user: Option<UserId>, base_dir: AbsoluteInventoryPath },
    /// Show a directory's own attributes.
    Metadata { target_user: Option<UserId>, base_dir: AbsoluteInventoryPath },
    /// Move records to another directory.
    Move { target_user: UserId, record_id: Vec<RecordId>, to: Vec<String> },
}

/// The options as given on the command line.
#[derive(Debug)]
pub struct Args {
    pub email: Option<EmailAddress>,
    pub password: Option<Password>,
    pub totp: Option<OneTimePassword>,
    pub user_id: Option<UserId>,
    pub log_level: LogLevel,
    pub read_token_from_stdin: bool,
    pub keep_record_id: bool,
    pub color_policy: ColorPolicy,
    pub platform: Option<Platform>,
    pub sub_command: ToolSubCommand,
}

/// The options once checked.
#[derive(Debug)]
pub struct AfterArgs {
    pub login_info: Option<LoginInfo>,
    pub sub_command: ToolSubCommand,
    pub log_level: LogLevel,
    pub read_token_from_stdin: bool,
    pub keep_record_id: bool,
    pub colored: bool,
    pub platform: Platform,
}

/// Why the options cannot be used.
#[derive(Clone, Copy, Debug, PartialEq, Eq, Structural)]
pub enum ArgsError {
    /// A password came with both an e-mail address and a user id.
    BothEmailAndUserId,
    /// A password came with neither an e-mail address nor a user id.
    MissingIdentity,
    /// A token is to be read, but no user id names its owner.
    MissingUserIdForToken,
    /// The platform is not supported yet.
    UnsupportedPlatform,
}

/// The credentials that the options give, or why they give none.
pub open spec fn login_of(
    email: Option<EmailAddress>,
    password: Option<Password>,
    totp: Option<OneTimePassword>,
    user_id: Option<UserId>,
    read_token_from_stdin: bool,
) -> Result<Option<LoginInfo>, ArgsError> {
    match password {
        Some(password) => match (email, user_id) {
            (Some(_), Some(_)) => Err(ArgsError::BothEmailAndUserId),
            (Some(email), None) => Ok(
                Some(
                    LoginInfo::ByPassword {
                        user_identify_pointer: UserIdentifyPointer::Email { email },
                        password,
                        totp,
                    },
                ),
            ),
            (None, Some(user_id)) => Ok(
                Some(
                    LoginInfo::ByPassword {
                        user_identify_pointer: UserIdentifyPointer::UserId { user_id },
                        password,
                        totp,
                    },
                ),
            ),
            (None, None) => Err(ArgsError::MissingIdentity),
        },
        None => if read_token_from_stdin {
            match user_id {
                Some(user_id) => Ok(Some(LoginInfo::ByTokenFromStdin { user_id })),
                None => Err(ArgsError::MissingUserIdForToken),
            }
        } else {
            Ok(None)
        },
    }
}

/// The platform that the options select: Neos unless another is named.
pub open spec fn platform_of(p: Option<Platform>) -> Result<Platform, ArgsError> {
    match p {
        None => Ok(Platform::Neos),
        Some(Platform::Neos) => Ok(Platform::Neos),
        Some(Platform::Resonite) => Err(ArgsError::UnsupportedPlatform),
    }
}

/// Whether output is coloured under a policy.
pub open spec fn colored_of(policy: ColorPolicy, stdout_is_terminal: bool) -> bool {
    match policy {
        ColorPolicy::Always => true,
        ColorPolicy::Auto => stdout_is_terminal,
        ColorPolicy::Never => false,
    }
}

impl Args {
    /// Checks the options: the credentials must name exactly one identity
    /// for a password, and a user for a token read from outside; the
    /// platform must be supported. `stdout_is_terminal` decides the
    /// automatic colour policy.
    pub fn validate(self, stdout_is_terminal: bool) -> (r: Result<AfterArgs, ArgsError>)
        ensures
            match login_of(
                self.email,
                self.password,
                self.totp,
                self.user_id,
                self.read_token_from_stdin,
            ) {
                Err(e) => r == Err::<AfterArgs, ArgsError>(e),
                Ok(login_info) => match platform_of(self.platform) {
                    Err(e) => r == Err::<AfterArgs, ArgsError>(e),
                    Ok(platform) => r == Ok::<AfterArgs, ArgsError>(
                        AfterArgs {
                            login_info,
                            sub_command: self.sub_command,
                            log_level: self.log_level,
                            read_token_from_stdin: self.read_token_from_stdin,
                            keep_record_id: self.keep_record_id,
                            colored: colored_of(self.color_policy, stdout_is_terminal),
                            platform,
                        },
                    ),
                },
            },
    {
        let login_info = match self.password {
            Some(password) => match (self.email, self.user_id) {
                (Some(_), Some(_)) => return Err(ArgsError::BothEmailAndUserId),
                (Some(email), None) => Some(
                    LoginInfo::ByPassword {
                        user_identify_pointer: UserIdentifyPointer::email(email),
                        password,
                        totp: self.totp,
                    },
                ),
                (None, Some(user_id)) => Some(
                    LoginInfo::ByPassword {
                        user_identify_pointer: UserIdentifyPointer::user_id(user_id),
                        password,
                        totp: self.totp,
                    },
                ),
                (None, None) => return Err(ArgsError::MissingIdentity),
            },
            None => if self.read_token_from_stdin {
                match self.user_id {
                    Some(user_id) => Some(LoginInfo::ByTokenFromStdin { user_id }),
                    None => return Err(ArgsError::MissingUserIdForToken),
                }
            } else {
                None
            },
        };
        let colored = match self.color_policy {
            ColorPolicy::Always => true,
            ColorPolicy::Auto => stdout_is_terminal,
            ColorPolicy::Never => false,
        };
        let platform = match self.platform {
            None => Platform::Neos,
            Some(Platform::Neos) => Platform::Neos,
            Some(Platform::Resonite) => return Err(ArgsError::UnsupportedPlatform),
        };
        Ok(
            AfterArgs {
                login_info,
                sub_command: self.sub_command,
                log_level: self.log_level,
                read_token_from_stdin: self.read_token_from_stdin,
                keep_record_id: self.keep_record_id,
                colored,
                platform,
            },
        )
    }
}

} // verus!
