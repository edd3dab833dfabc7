use vstd::prelude::*;

verus! {

/// Errors of the message bus and of the messages read from it.
///
/// The transport's own failures are carried as their rendered messages.
#[derive(Debug, Clone, PartialEq, Eq)]
pub enum DBusError {
    /// The connection to the bus failed.
    Connection(String),
    /// A message did not have the expected format.
    Invalid(String),
    /// The bus answered with an error message.
    Generic(String),
    /// A message body could not be read.
    Unmarshal(String),
    /// A message body could not be written.
    Marshal(String),
}

/// The match rule that subscribes to the signals of one member of one
/// interface, sent from one object path.
pub open spec fn match_rule_of(interface: Seq<char>, member: Seq<char>, path: Seq<char>) -> Seq<char> {
    "interface='"@ + interface + "',member='"@ + member + "',path='"@ + path + "'"@
}

/// The match rule for the signals of `member` of `interface` at `path`.
pub fn match_rule(interface: &str, member: &str, path: &str) -> (r: String)
    ensures
        r@ == match_rule_of(interface@, member@, path@),
{
    let mut r = String::from_str("interface='");
    r.append(interface);
    r.append("',member='");
    r.append(member);
    r.append("',path='");
    r.append(path);
    r.append("'");
    r
}

} // verus!
