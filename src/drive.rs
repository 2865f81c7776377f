use vstd::prelude::*;
use vstd::string::*;

use crate::command::{plain_command, push_arg, ExecutionResult, ExternalCommand};
use crate::error::{error_is, UpvError, EXIT_PROGRAM_ERROR, EXIT_UPV_DRIVE_ERROR, EXIT_UPV_DRIVE_IN_USE_ERROR};
use crate::text::{char_lowercase, contains, contains_text, lowercase_char, push_char};

verus! {

/// The two account domains of the university; each has its own share tree.
#[allow(non_camel_case_types)]
#[derive(Debug, Clone, Copy, PartialEq, Eq, Structural)]
pub enum UPVDomain {
    ALUMNO,
    UPVNET,
}

impl UPVDomain {
    pub open spec fn name_text(self) -> Seq<char> {
        match self {
            UPVDomain::ALUMNO => "ALUMNO"@,
            UPVDomain::UPVNET => "UPVNET"@,
        }
    }

    pub open spec fn share_prefix_text(self) -> Seq<char> {
        match self {
            UPVDomain::ALUMNO => "\\\\nasupv.upv.es\\alumnos\\"@,
            UPVDomain::UPVNET => "\\\\nasupv.upv.es\\discos\\"@,
        }
    }

    /// The domain's name as the network stack expects it in a user name.
    pub fn name(&self) -> (r: &'static str)
        ensures
            r@ == self.name_text(),
    {
        match self {
            UPVDomain::ALUMNO => "ALUMNO",
            UPVDomain::UPVNET => "UPVNET",
        }
    }

    /// The start of every share path of the domain.
    pub fn share_prefix(&self) -> (r: &'static str)
        ensures
            r@ == self.share_prefix_text(),
    {
        match self {
            UPVDomain::ALUMNO => "\\\\nasupv.upv.es\\alumnos\\",
            UPVDomain::UPVNET => "\\\\nasupv.upv.es\\discos\\",
        }
    }
}

/// What comes after a successful mount.
#[derive(Debug, Clone, Copy, PartialEq, Eq, Structural)]
pub enum DriveFollowUp {
    Done,
    Open { drive: char, check_exists: bool },
}

/// The message of a refused unmount of a drive in use, after its letter.
pub open spec fn in_use_tail() -> Seq<char> {
    ": is currently IN USE. Please CLOSE any open files or folders on this drive and try again, or run this again with the --force option to unmount it anyways, accepting that INFORMATION COULD BE LOST."@
}

/// The share path of `username` in `domain`: the domain's prefix, the
/// lowercased first character of the name, a separator, and the name.
pub open spec fn share_path(username: Seq<char>, domain: UPVDomain) -> Seq<char>
    recommends
        username.len() > 0,
{
    domain.share_prefix_text() + char_lowercase(username[0]) + "\\"@ + username
}

/// The drive letter as a device name (`W:`).
pub open spec fn device_text(drive: char) -> Seq<char> {
    seq![drive, ':']
}

/// The root directory of a drive (`W:\`).
pub open spec fn root_text(drive: char) -> Seq<char> {
    seq![drive, ':', '\\']
}

/// The arguments of the mount command.
pub open spec fn mount_args(
    username: Seq<char>,
    domain: UPVDomain,
    password: Option<Seq<char>>,
    drive: char,
) -> Seq<Seq<char>> {
    let base = seq!["use"@, device_text(drive), share_path(username, domain)];
    match password {
        Some(p) => base + seq!["/user:"@ + domain.name_text() + "\\"@ + username, p],
        None => base,
    }
}

/// The arguments of the unmount command.
pub open spec fn unmount_args(drive: char, force: bool) -> Seq<Seq<char>> {
    let base = seq!["use"@, device_text(drive), "/delete"@];
    if force {
        base.push("/y"@)
    } else {
        base
    }
}

/// The share prefix is chosen by the domain alone: every share path of a
/// domain starts with that domain's prefix, followed by the lowercased first
/// character of the user name, whatever the name. The two domains' paths
/// never meet: no path of one domain starts with the other's prefix, so no
/// path of one is a path of the other.
pub proof fn lemma_domain_prefixes_exclusive(
    u1: Seq<char>,
    u2: Seq<char>,
    d1: UPVDomain,
    d2: UPVDomain,
)
    requires
        u1.len() > 0,
        u2.len() > 0,
    ensures
        share_path(u1, d1).take(d1.share_prefix_text().len() as int) == d1.share_prefix_text(),
        share_path(u1, d1).subrange(
            d1.share_prefix_text().len() as int,
            (d1.share_prefix_text().len() + char_lowercase(u1[0]).len()) as int,
        ) == char_lowercase(u1[0]),
        d1 != d2 ==> share_path(u2, d2).take(d1.share_prefix_text().len() as int)
            != d1.share_prefix_text(),
        d1 != d2 ==> share_path(u1, d1) != share_path(u2, d2),
{
    reveal_strlit("\\\\nasupv.upv.es\\alumnos\\");
    reveal_strlit("\\\\nasupv.upv.es\\discos\\");
    let p1 = d1.share_prefix_text();
    let p2 = d2.share_prefix_text();
    let s1 = share_path(u1, d1);
    let s2 = share_path(u2, d2);
    assert(s1.take(p1.len() as int) =~= p1);
    assert(s1.subrange(p1.len() as int, (p1.len() + char_lowercase(u1[0]).len()) as int) =~= char_lowercase(
        u1[0],
    ));
    if d1 != d2 {
        assert(p1[16] != p2[16]);
        assert(s2[16] == p2[16]);
        assert(s1[16] == p1[16]);
        assert(s2.take(p1.len() as int)[16] != p1[16]);
    }
}

/// Decisions of the network-drive commands.
pub struct DriveManager;

/// The drive letter as a device name.
fn device_name(drive: char) -> (r: String)
    ensures
        r@ == device_text(drive),
{
    let mut s = String::new();
    push_char(&mut s, drive);
    push_char(&mut s, ':');
    assert(s@ =~= device_text(drive));
    s
}

impl DriveManager {
    /// The share path of `username` in `domain`; an empty name is refused.
    pub fn server_path(username: &str, domain: &UPVDomain) -> (r: Result<String, UpvError>)
        ensures
            username@.len() > 0 <==> r is Ok,
            r is Ok ==> r->Ok_0@ == share_path(username@, *domain),
            r is Err ==> error_is(r->Err_0, "Username cannot be empty"@, EXIT_PROGRAM_ERROR),
    {
        if username.unicode_len() == 0 {
            return Err(UpvError::new(String::from_str("Username cannot be empty"), EXIT_PROGRAM_ERROR));
        }
        let first = lowercase_char(username.get_char(0));
        let mut path = String::from_str(domain.share_prefix());
        path.append(first.as_str());
        path.append("\\");
        path.append(username);
        Ok(path)
    }

    /// The command that mounts the share of `username` on `drive`. Credentials
    /// are passed only when a password is given; otherwise the session's own
    /// are used. An empty name is refused before anything runs.
    pub fn mount_command(
        username: &str,
        domain: &UPVDomain,
        password: Option<&str>,
        drive: char,
    ) -> (r: Result<ExternalCommand, UpvError>)
        ensures
            username@.len() > 0 <==> r is Ok,
            r is Ok ==> ({
                let c = r->Ok_0;
                &&& c.program@ == "net"@
                &&& c.arg_texts() == mount_args(
                    username@,
                    *domain,
                    match password {
                        Some(p) => Some(p@),
                        None => None,
                    },
                    drive,
                )
                &&& c.input is None
            }),
            r is Err ==> error_is(r->Err_0, "Username cannot be empty"@, EXIT_PROGRAM_ERROR),
    {
        let path = match Self::server_path(username, domain) {
            Ok(p) => p,
            Err(e) => return Err(e),
        };
        let mut args: Vec<String> = Vec::new();
        push_arg(&mut args, String::from_str("use"));
        push_arg(&mut args, device_name(drive));
        push_arg(&mut args, path);
        match password {
            Some(p) => {
                let mut user = String::from_str("/user:");
                user.append(domain.name());
                user.append("\\");
                user.append(username);
                push_arg(&mut args, user);
                push_arg(&mut args, String::from_str(p));
            },
            None => {},
        }
        let ghost pw = match password {
            Some(p) => Some(p@),
            None => None,
        };
        assert(args.deep_view() =~= mount_args(username@, *domain, pw, drive));
        Ok(plain_command("net", args))
    }

    /// What a finished mount means: a failure carries the command's error
    /// text; a success is followed by opening the drive, without checking
    /// that it exists, when `open_explorer` is set.
    pub fn mount_outcome(drive: char, open_explorer: bool, result: &ExecutionResult) -> (r: Result<
        DriveFollowUp,
        UpvError,
    >)
        ensures
            result.success <==> r is Ok,
            r is Ok ==> r->Ok_0 == (if open_explorer {
                DriveFollowUp::Open { drive, check_exists: false }
            } else {
                DriveFollowUp::Done
            }),
            r is Err ==> error_is(
                r->Err_0,
                "Failed to mount drive "@.push(drive) + ": "@ + result.stderr@,
                EXIT_UPV_DRIVE_ERROR,
            ),
    {
        if result.success {
            if open_explorer {
                Ok(DriveFollowUp::Open { drive, check_exists: false })
            } else {
                Ok(DriveFollowUp::Done)
            }
        } else {
            let mut m = String::from_str("Failed to mount drive ");
            push_char(&mut m, drive);
            m.append(": ");
            m.append(result.stderr.as_str());
            Err(UpvError::new(m, EXIT_UPV_DRIVE_ERROR))
        }
    }

    /// The root directory of `drive`.
    pub fn drive_root(drive: char) -> (r: String)
        ensures
            r@ == root_text(drive),
    {
        let mut s = device_name(drive);
        push_char(&mut s, '\\');
        assert(s@ =~= root_text(drive));
        s
    }

    /// Whether the drive may be opened: only a requested existence check
    /// that found no drive stops it.
    pub fn open_check(drive: char, check_if_exists: bool, exists: bool) -> (r: Result<(), UpvError>)
        ensures
            r is Err <==> check_if_exists && !exists,
            r is Err ==> error_is(
                r->Err_0,
                "Drive "@.push(drive) + " does not exist"@,
                EXIT_UPV_DRIVE_ERROR,
            ),
    {
        if check_if_exists && !exists {
            let mut m = String::from_str("Drive ");
            push_char(&mut m, drive);
            m.append(" does not exist");
            Err(UpvError::new(m, EXIT_UPV_DRIVE_ERROR))
        } else {
            Ok(())
        }
    }

    /// The command that shows the root of `drive` in the file browser.
    pub fn open_command(drive: char) -> (r: ExternalCommand)
        ensures
            r.program@ == "explorer.exe"@,
            r.arg_texts() == seq![root_text(drive)],
            r.input is None,
    {
        let mut args: Vec<String> = Vec::new();
        push_arg(&mut args, Self::drive_root(drive));
        assert(args.deep_view() =~= seq![root_text(drive)]);
        plain_command("explorer.exe", args)
    }

    /// The command that unmounts `drive`; `force` answers the in-use prompt.
    pub fn unmount_command(drive: char, force: bool) -> (r: ExternalCommand)
        ensures
            r.program@ == "net"@,
            r.arg_texts() == unmount_args(drive, force),
            r.input is None,
    {
        let mut args: Vec<String> = Vec::new();
        push_arg(&mut args, String::from_str("use"));
        push_arg(&mut args, device_name(drive));
        push_arg(&mut args, String::from_str("/delete"));
        if force {
            push_arg(&mut args, String::from_str("/y"));
        }
        assert(args.deep_view() =~= unmount_args(drive, force));
        plain_command("net", args)
    }

    /// What a finished unmount means. Output that echoes a yes/no prompt
    /// (it holds `/N`) is read as a drive in use; the match is on free text
    /// and so only as reliable as that text.
    pub fn unmount_outcome(drive: char, result: &ExecutionResult) -> (r: Result<(), UpvError>)
        ensures
            result.success <==> r is Ok,
            !result.success && contains_text(result.stdout@, "/N"@) ==> error_is(
                r->Err_0,
                "Drive "@.push(drive) + in_use_tail(),
                EXIT_UPV_DRIVE_IN_USE_ERROR,
            ),
            !result.success && !contains_text(result.stdout@, "/N"@) ==> error_is(
                r->Err_0,
                "Failed to unmount drive "@.push(drive) + ": "@ + result.stderr@,
                EXIT_UPV_DRIVE_ERROR,
            ),
    {
        if result.success {
            return Ok(());
        }
        if contains(result.stdout.as_str(), "/N") {
            let mut m = String::from_str("Drive ");
            push_char(&mut m, drive);
            m.append(": is currently IN USE. Please CLOSE any open files or folders on this drive and try again, or run this again with the --force option to unmount it anyways, accepting that INFORMATION COULD BE LOST.");
            return Err(UpvError::new(m, EXIT_UPV_DRIVE_IN_USE_ERROR));
        }
        let mut m = String::from_str("Failed to unmount drive ");
        push_char(&mut m, drive);
        m.append(": ");
        m.append(result.stderr.as_str());
        Err(UpvError::new(m, EXIT_UPV_DRIVE_ERROR))
    }

    /// The command that lists the active mounts; it changes nothing.
    pub fn status_command() -> (r: ExternalCommand)
        ensures
            r.program@ == "net"@,
            r.arg_texts() == seq!["use"@],
            r.input is None,
    {
        let mut args: Vec<String> = Vec::new();
        push_arg(&mut args, String::from_str("use"));
        assert(args.deep_view() =~= seq!["use"@]);
        plain_command("net", args)
    }
}

} // verus!
