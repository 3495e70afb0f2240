use vstd::prelude::*;
use crate::types::{ContextData, ExecutionMetadata, InteractionContext};
use crate::fingerprint::opt_view;

verus! {

/// The version of this library, recorded in invocation metadata.
pub const TOOL_VERSION: &'static str = "0.4.1";

/// The key/value view of a list of flag pairs; a later pair wins over an earlier one.
pub open spec fn flag_map(v: Seq<(String, String)>) -> Map<Seq<char>, Seq<char>>
    decreases v.len(),
{
    if v.len() == 0 {
        Map::empty()
    } else {
        flag_map(v.drop_last()).insert(v.last().0@, v.last().1@)
    }
}

/// `v` with the pair for `key` set to `value`, replacing any earlier one.
pub fn set_flag(v: &Vec<(String, String)>, key: String, value: String) -> (r: Vec<(String, String)>)
    ensures
        flag_map(r@) == flag_map(v@).insert(key@, value@),
{
    let mut out: Vec<(String, String)> = Vec::new();
    let mut j: usize = 0;
    while j < v.len()
        invariant
            j <= v@.len(),
            flag_map(out@) == flag_map(v@.take(j as int)).remove(key@),
        decreases v@.len() - j,
    {
        let ghost before = out@;
        let k = v[j].0.clone();
        let val = v[j].1.clone();
        proof {
            assert(v@.take(j + 1).drop_last() =~= v@.take(j as int));
        }
        if !k.eq(&key) {
            out.push((k, val));
            proof {
                assert(out@.drop_last() =~= before);
                assert(flag_map(out@) =~= flag_map(v@.take(j + 1)).remove(key@));
            }
        } else {
            assert(flag_map(v@.take(j + 1)).remove(key@) =~= flag_map(v@.take(j as int)).remove(key@));
        }
        j = j + 1;
    }
    assert(v@.take(v@.len() as int) =~= v@);
    let ghost before = out@;
    out.push((key, value));
    proof {
        assert(out@.drop_last() =~= before);
        assert(flag_map(out@) =~= flag_map(v@).insert(key@, value@));
    }
    out
}

/// Records the facts of one invocation: command name, optional user message
/// and flags.
#[derive(Clone, Debug)]
pub struct InteractionContextProvider {
    pub command: Option<String>,
    pub user_message: Option<String>,
    pub flags: Vec<(String, String)>,
}

impl InteractionContextProvider {
    /// A recorder with no command, message or flags.
    pub fn new() -> (r: InteractionContextProvider)
        ensures
            r.command is None,
            r.user_message is None,
            flag_map(r.flags@) == Map::<Seq<char>, Seq<char>>::empty(),
    {
        InteractionContextProvider { command: None, user_message: None, flags: Vec::new() }
    }

    /// A recorder for the named command.
    pub fn with_command(command: String) -> (r: InteractionContextProvider)
        ensures
            opt_view(r.command) == Some(command@),
            r.user_message is None,
            flag_map(r.flags@) == Map::<Seq<char>, Seq<char>>::empty(),
    {
        InteractionContextProvider { command: Some(command), user_message: None, flags: Vec::new() }
    }

    /// The same recorder with the user message set.
    pub fn with_message(self, message: Option<String>) -> (r: InteractionContextProvider)
        ensures
            opt_view(r.command) == opt_view(self.command),
            opt_view(r.user_message) == opt_view(message),
            flag_map(r.flags@) == flag_map(self.flags@),
    {
        InteractionContextProvider { command: self.command, user_message: message, flags: self.flags }
    }

    /// The same recorder with one flag set, replacing an earlier value of the key.
    pub fn with_flag(self, key: String, value: String) -> (r: InteractionContextProvider)
        ensures
            opt_view(r.command) == opt_view(self.command),
            opt_view(r.user_message) == opt_view(self.user_message),
            flag_map(r.flags@) == flag_map(self.flags@).insert(key@, value@),
    {
        let flags = set_flag(&self.flags, key, value);
        InteractionContextProvider { command: self.command, user_message: self.user_message, flags }
    }

    /// The same recorder with all the given flags set; a given flag replaces an
    /// earlier value of its key.
    pub fn with_flags(self, flags: Vec<(String, String)>) -> (r: InteractionContextProvider)
        ensures
            opt_view(r.command) == opt_view(self.command),
            opt_view(r.user_message) == opt_view(self.user_message),
            flag_map(r.flags@) == flag_map(self.flags@).union_prefer_right(flag_map(flags@)),
    {
        let mut acc = self.flags;
        let mut j: usize = 0;
        while j < flags.len()
            invariant
                j <= flags@.len(),
                flag_map(acc@) == flag_map(self.flags@).union_prefer_right(
                    flag_map(flags@.take(j as int)),
                ),
            decreases flags@.len() - j,
        {
            proof {
                assert(flags@.take(j + 1).drop_last() =~= flags@.take(j as int));
            }
            acc = set_flag(&acc, flags[j].0.clone(), flags[j].1.clone());
            assert(flag_map(acc@) =~= flag_map(self.flags@).union_prefer_right(
                flag_map(flags@.take(j + 1)),
            ));
            j = j + 1;
        }
        assert(flags@.take(flags@.len() as int) =~= flags@);
        InteractionContextProvider { command: self.command, user_message: self.user_message, flags: acc }
    }

    /// The invocation snapshot: the command name ("unknown" where none was
    /// given), the message, the flags, and the metadata of this call.
    pub fn record(self, metadata: ExecutionMetadata) -> (r: ContextData)
        ensures
            r matches ContextData::Interaction(ic) && {
                &&& ic.command@ == (match self.command {
                    Some(c) => c@,
                    None => "unknown"@,
                })
                &&& opt_view(ic.user_message) == opt_view(self.user_message)
                &&& ic.flags@ == self.flags@
                &&& ic.execution_metadata == metadata
            },
    {
        proof {
            reveal_strlit("unknown");
        }
        let command = match self.command {
            Some(c) => c,
            None => "unknown".to_string(),
        };
        ContextData::Interaction(InteractionContext {
            command,
            user_message: self.user_message,
            flags: self.flags,
            execution_metadata: metadata,
        })
    }
}

/// The version string recorded for this tool.
pub fn tool_version() -> (r: String)
    ensures
        r@ == TOOL_VERSION@,
{
    TOOL_VERSION.to_string()
}

} // verus!
