use vstd::prelude::*;
use vstd::string::*;

use crate::command::{plain_command, push_arg, ExecutionResult, ExternalCommand};
use crate::error::{error_is, UpvError, EXIT_UPV_VPN_ERROR};
use crate::text::{lowercase, strip_leading, strip_leading_of, text_lowercase, trim, trimmed};

verus! {

/// The server address of every profile this tool creates; a profile is the
/// tool's own exactly when the registry reports this address for it.
pub const SERVER_ADDRESS: &'static str = "vpn.upv.es";

/// The byte-order mark that an embedded configuration may start with.
pub const BYTE_ORDER_MARK: char = '\u{feff}';

/// The script that lists the names of the profiles whose server address is
/// `SERVER_ADDRESS`, one per line.
pub open spec fn list_script_text() -> Seq<char> {
    "Get-VpnConnection | Where-Object {$_.ServerAddress -eq '"@ + SERVER_ADDRESS@
        + "'} | Select-Object -ExpandProperty Name"@
}

/// The script that removes the profile `name` without asking.
pub open spec fn delete_script_text(name: Seq<char>) -> Seq<char> {
    "Remove-VpnConnection -Name '"@ + name + "' -Force"@
}

/// The configuration payload as it is embedded: trimmed, then without the
/// byte-order marks it starts with.
pub open spec fn cleaned_payload(payload: Seq<char>) -> Seq<char> {
    strip_leading_of(trimmed(payload), BYTE_ORDER_MARK)
}

/// The script that adds the profile `name` with the fixed server, security
/// settings and the configuration payload.
pub open spec fn create_script_text(name: Seq<char>, payload: Seq<char>) -> Seq<char> {
    "Add-VpnConnection -Name '"@ + name + "' -ServerAddress '"@ + SERVER_ADDRESS@
        + "' -AuthenticationMethod Eap -EncryptionLevel Required -TunnelType Sstp -EapConfigXmlStream @'\r\n"@
        + cleaned_payload(payload) + "\r\n'@\r\n\r\n"@
}

/// `[t]` when the trimmed line `t` is not empty, else nothing.
pub open spec fn kept(line: Seq<char>) -> Seq<Seq<char>> {
    if trimmed(line).len() > 0 {
        seq![trimmed(line)]
    } else {
        seq![]
    }
}

/// Reads `s` from the start: the kept names of the lines that a newline has
/// closed, and the text of the line still open.
pub open spec fn line_scan(s: Seq<char>) -> (Seq<Seq<char>>, Seq<char>)
    decreases s.len(),
{
    if s.len() == 0 {
        (seq![], seq![])
    } else {
        let p = line_scan(s.drop_last());
        if s.last() == '\n' {
            (p.0 + kept(p.1), seq![])
        } else {
            (p.0, p.1.push(s.last()))
        }
    }
}

/// The names that a listing holds: its lines, trimmed, empty ones left out,
/// in the order of the listing.
pub open spec fn names_in(output: Seq<char>) -> Seq<Seq<char>> {
    line_scan(output).0 + kept(line_scan(output).1)
}

/// An answer that accepts a yes/no question: `y` or `yes`, in any case,
/// with surrounding whitespace.
pub open spec fn accepts(input: Seq<char>) -> bool {
    text_lowercase(trimmed(input)) == "y"@ || text_lowercase(trimmed(input)) == "yes"@
}

/// An answer that types the word `DELETE` exactly, with surrounding whitespace.
pub open spec fn types_delete_word(input: Seq<char>) -> bool {
    trimmed(input) == "DELETE"@
}

/// What comes after a successful creation.
#[derive(Debug, Clone, Copy, PartialEq, Eq, Structural)]
pub enum VpnFollowUp {
    Done,
    Connect,
}

/// Decisions of the VPN commands.
pub struct VpnManager;

/// `prefix`, then `middle`, then `suffix`.
fn joined(prefix: &str, middle: &str, suffix: &str) -> (r: String)
    ensures
        r@ == prefix@ + middle@ + suffix@,
{
    let mut s = String::from_str(prefix);
    s.append(middle);
    s.append(suffix);
    s
}

/// An error of a VPN command: `head`, the command's error text, code 11.
fn vpn_error(head: String, stderr: &str) -> (r: UpvError)
    ensures
        error_is(r, head@ + stderr@, EXIT_UPV_VPN_ERROR),
{
    let mut m = head;
    m.append(stderr);
    UpvError::new(m, EXIT_UPV_VPN_ERROR)
}

/// A PowerShell command that runs `script`, given as an argument.
fn powershell(script: String) -> (r: ExternalCommand)
    ensures
        r.program@ == "powershell"@,
        r.arg_texts() == seq!["-Command"@, script@],
        r.input is None,
{
    let mut args: Vec<String> = Vec::new();
    push_arg(&mut args, String::from_str("-Command"));
    push_arg(&mut args, script);
    assert(args.deep_view() =~= seq!["-Command"@, script@]);
    plain_command("powershell", args)
}

impl VpnManager {
    /// The command that lists the tool's own profiles.
    pub fn list_command() -> (r: ExternalCommand)
        ensures
            r.program@ == "powershell"@,
            r.arg_texts() == seq!["-Command"@, list_script_text()],
            r.input is None,
    {
        powershell(
            joined(
                "Get-VpnConnection | Where-Object {$_.ServerAddress -eq '",
                SERVER_ADDRESS,
                "'} | Select-Object -ExpandProperty Name",
            ),
        )
    }

    /// The names in a listing, in its order.
    pub fn connection_names(output: &str) -> (r: Vec<String>)
        ensures
            r.deep_view() == names_in(output@),
    {
        let n = output.unicode_len();
        let mut names: Vec<String> = Vec::new();
        let mut start: usize = 0;
        let mut i: usize = 0;
        assert(output@.take(0) =~= seq![]);
        assert(names.deep_view() =~= seq![]);
        while i < n
            invariant
                n == output@.len(),
                start <= i <= n,
                line_scan(output@.take(i as int)) == (
                    names.deep_view(),
                    output@.subrange(start as int, i as int),
                ),
            decreases n - i,
        {
            let c = output.get_char(i);
            assert(output@.take(i + 1).drop_last() =~= output@.take(i as int));
            assert(output@.take(i + 1).last() == c);
            if c == '\n' {
                let line = trim(output.substring_char(start, i));
                if line.unicode_len() > 0 {
                    push_arg(&mut names, line);
                }
                assert(names.deep_view() =~= line_scan(output@.take(i + 1)).0);
                start = i + 1;
                assert(output@.subrange(start as int, i + 1) =~= seq![]);
            } else {
                assert(output@.subrange(start as int, i + 1) =~= output@.subrange(
                    start as int,
                    i as int,
                ).push(c));
            }
            i = i + 1;
        }
        assert(output@.take(n as int) =~= output@);
        let line = trim(output.substring_char(start, n));
        if line.unicode_len() > 0 {
            push_arg(&mut names, line);
        }
        assert(names.deep_view() =~= names_in(output@));
        names
    }

    /// What a finished listing means: the names it holds, or a failure with
    /// the command's error text.
    pub fn list_outcome(result: &ExecutionResult) -> (r: Result<Vec<String>, UpvError>)
        ensures
            result.success <==> r is Ok,
            r is Ok ==> r->Ok_0.deep_view() == names_in(result.stdout@),
            r is Err ==> error_is(
                r->Err_0,
                "Failed to get VPN connections: "@ + result.stderr@,
                EXIT_UPV_VPN_ERROR,
            ),
    {
        if result.success {
            Ok(Self::connection_names(result.stdout.as_str()))
        } else {
            Err(vpn_error(String::from_str("Failed to get VPN connections: "), result.stderr.as_str()))
        }
    }

    /// The configuration payload as the creation script embeds it.
    pub fn clean_payload(payload: &str) -> (r: String)
        ensures
            r@ == cleaned_payload(payload@),
    {
        let t = trim(payload);
        strip_leading(t.as_str(), BYTE_ORDER_MARK)
    }

    /// The command that creates the profile `name`. The script goes to the
    /// interpreter's standard input, since the payload is too large for an
    /// argument.
    pub fn create_command(name: &str, payload: &str) -> (r: ExternalCommand)
        ensures
            r.program@ == "powershell"@,
            r.arg_texts() == seq!["-Command"@, "-"@],
            r.input_text() == Some(create_script_text(name@, payload@)),
    {
        let mut script = joined("Add-VpnConnection -Name '", name, "' -ServerAddress '");
        script.append(SERVER_ADDRESS);
        script.append(
            "' -AuthenticationMethod Eap -EncryptionLevel Required -TunnelType Sstp -EapConfigXmlStream @'\r\n",
        );
        let xml = Self::clean_payload(payload);
        script.append(xml.as_str());
        script.append("\r\n'@\r\n\r\n");
        let mut args: Vec<String> = Vec::new();
        push_arg(&mut args, String::from_str("-Command"));
        push_arg(&mut args, String::from_str("-"));
        assert(args.deep_view() =~= seq!["-Command"@, "-"@]);
        let mut c = plain_command("powershell", args);
        c.input = Some(script);
        c
    }

    /// What a finished creation means: a failure carries the command's error
    /// text; a success is followed by connecting when `auto_connect` is set.
    pub fn create_outcome(name: &str, auto_connect: bool, result: &ExecutionResult) -> (r: Result<
        VpnFollowUp,
        UpvError,
    >)
        ensures
            result.success <==> r is Ok,
            r is Ok ==> r->Ok_0 == (if auto_connect {
                VpnFollowUp::Connect
            } else {
                VpnFollowUp::Done
            }),
            r is Err ==> error_is(
                r->Err_0,
                "Failed to create VPN connection '"@ + name@ + "': "@ + result.stderr@,
                EXIT_UPV_VPN_ERROR,
            ),
    {
        if result.success {
            if auto_connect {
                Ok(VpnFollowUp::Connect)
            } else {
                Ok(VpnFollowUp::Done)
            }
        } else {
            Err(vpn_error(joined("Failed to create VPN connection '", name, "': "), result.stderr.as_str()))
        }
    }

    /// The command that opens the dial dialog of the profile `name`.
    pub fn connect_command(name: &str) -> (r: ExternalCommand)
        ensures
            r.program@ == "rasphone"@,
            r.arg_texts() == seq!["-d"@, name@],
            r.input is None,
    {
        let mut args: Vec<String> = Vec::new();
        push_arg(&mut args, String::from_str("-d"));
        push_arg(&mut args, String::from_str(name));
        assert(args.deep_view() =~= seq!["-d"@, name@]);
        plain_command("rasphone", args)
    }

    /// What a finished dial command means.
    pub fn connect_outcome(name: &str, result: &ExecutionResult) -> (r: Result<(), UpvError>)
        ensures
            result.success <==> r is Ok,
            r is Err ==> error_is(
                r->Err_0,
                "Failed to open connection dialog for '"@ + name@ + "': "@ + result.stderr@,
                EXIT_UPV_VPN_ERROR,
            ),
    {
        if result.success {
            Ok(())
        } else {
            Err(vpn_error(joined("Failed to open connection dialog for '", name, "': "), result.stderr.as_str()))
        }
    }

    /// The command that hangs up whatever connection is active.
    pub fn disconnect_command() -> (r: ExternalCommand)
        ensures
            r.program@ == "rasdial"@,
            r.arg_texts() == seq!["/disconnect"@],
            r.input is None,
    {
        let mut args: Vec<String> = Vec::new();
        push_arg(&mut args, String::from_str("/disconnect"));
        assert(args.deep_view() =~= seq!["/disconnect"@]);
        plain_command("rasdial", args)
    }

    /// What a finished hang-up means.
    pub fn disconnect_outcome(result: &ExecutionResult) -> (r: Result<(), UpvError>)
        ensures
            result.success <==> r is Ok,
            r is Err ==> error_is(
                r->Err_0,
                "Failed to disconnect from VPN: "@ + result.stderr@,
                EXIT_UPV_VPN_ERROR,
            ),
    {
        if result.success {
            Ok(())
        } else {
            Err(vpn_error(String::from_str("Failed to disconnect from VPN: "), result.stderr.as_str()))
        }
    }

    /// The command that removes the profile `name`.
    pub fn delete_command(name: &str) -> (r: ExternalCommand)
        ensures
            r.program@ == "powershell"@,
            r.arg_texts() == seq!["-Command"@, delete_script_text(name@)],
            r.input is None,
    {
        powershell(joined("Remove-VpnConnection -Name '", name, "' -Force"))
    }

    /// What a finished removal means.
    pub fn delete_outcome(name: &str, result: &ExecutionResult) -> (r: Result<(), UpvError>)
        ensures
            result.success <==> r is Ok,
            r is Err ==> error_is(
                r->Err_0,
                "Failed to delete VPN connection '"@ + name@ + "': "@ + result.stderr@,
                EXIT_UPV_VPN_ERROR,
            ),
    {
        if result.success {
            Ok(())
        } else {
            Err(vpn_error(joined("Failed to delete VPN connection '", name, "': "), result.stderr.as_str()))
        }
    }

    /// The command that lists the active connections; it changes nothing.
    pub fn status_command() -> (r: ExternalCommand)
        ensures
            r.program@ == "rasdial"@,
            r.arg_texts() == Seq::<Seq<char>>::empty(),
            r.input is None,
    {
        let args: Vec<String> = Vec::new();
        assert(args.deep_view() =~= Seq::<Seq<char>>::empty());
        plain_command("rasdial", args)
    }

    /// Whether `input` answers a yes/no question with yes.
    pub fn confirms(input: &str) -> (r: bool)
        ensures
            r == accepts(input@),
    {
        let t = trim(input);
        let l = lowercase(t.as_str());
        l == String::from_str("y") || l == String::from_str("yes")
    }

    /// Whether `input` types the word that confirms a purge.
    pub fn confirms_delete_word(input: &str) -> (r: bool)
        ensures
            r == types_delete_word(input@),
    {
        let t = trim(input);
        t == String::from_str("DELETE")
    }
}

} // verus!
