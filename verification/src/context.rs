//! The conversation context: an ordered, append-only buffer of role-tagged
//! turns. Requests to the completion backend are built from immutable
//! snapshots of this buffer, so an in-flight request can never observe a
//! mutation.

use vstd::prelude::*;

verus! {

/// The closed set of roles a conversation turn can carry.
#[derive(Clone, Copy, PartialEq, Eq, Structural, Debug)]
pub enum AiRole {
    System,
    Assistant,
    User,
}

/// The wire name of each role, as the completion backend expects it.
pub open spec fn role_name(role: AiRole) -> Seq<char> {
    match role {
        AiRole::System => "system"@,
        AiRole::User => "user"@,
        AiRole::Assistant => "assistant"@,
    }
}

impl AiRole {
    /// The lowercase wire name of `role`.
    pub fn get_string(role: &AiRole) -> (r: String)
        ensures
            r@ == role_name(*role),
    {
        match role {
            AiRole::System => String::from_str("system"),
            AiRole::User => String::from_str("user"),
            AiRole::Assistant => String::from_str("assistant"),
        }
    }
}

/// One exchange unit: a role together with its (possibly empty) text.
#[derive(Debug)]
pub struct Turn {
    pub role: AiRole,
    pub content: String,
}

/// The mathematical value of a `Turn`: its role and the characters of its
/// text.
pub struct TurnView {
    pub role: AiRole,
    pub content: Seq<char>,
}

impl View for Turn {
    type V = TurnView;

    open spec fn view(&self) -> TurnView {
        TurnView { role: self.role, content: self.content@ }
    }
}

impl Turn {
    /// Builds a turn from a role and borrowed text.
    pub fn new(role: AiRole, text: &str) -> (r: Turn)
        ensures
            r@ == (TurnView { role, content: text@ }),
    {
        Turn { role, content: String::from_str(text) }
    }

    /// An exact copy: same role, same characters.
    pub fn duplicate(&self) -> (r: Turn)
        ensures
            r@ == self@,
    {
        Turn { role: self.role, content: self.content.clone() }
    }
}

/// Turns a wire role name into the role it names, if any.
pub open spec fn parse_role(name: Seq<char>) -> Option<AiRole> {
    if name == role_name(AiRole::System) {
        Some(AiRole::System)
    } else if name == role_name(AiRole::User) {
        Some(AiRole::User)
    } else if name == role_name(AiRole::Assistant) {
        Some(AiRole::Assistant)
    } else {
        None
    }
}

/// The ordered conversation buffer. Turns are append-only: no removal,
/// reordering or truncation operation exists, and a turn once appended is
/// never mutated.
pub struct ContextContent {
    data: Vec<Turn>,
}

impl View for ContextContent {
    type V = Seq<TurnView>;

    closed spec fn view(&self) -> Seq<TurnView> {
        self.data@.map_values(|t: Turn| t@)
    }
}

impl ContextContent {
    /// An empty context.
    pub fn new() -> (r: ContextContent)
        ensures
            r@ == Seq::<TurnView>::empty(),
    {
        let r = ContextContent { data: Vec::new() };
        proof {
            assert(r@ =~= Seq::<TurnView>::empty());
        }
        r
    }

    /// How many turns the context holds.
    pub fn len(&self) -> (r: usize)
        ensures
            r == self@.len(),
    {
        self.data.len()
    }

    /// Borrows the turn at `i`.
    pub fn turn_at(&self, i: usize) -> (r: &Turn)
        requires
            i < self@.len(),
        ensures
            r@ == self@[i as int],
    {
        &self.data[i]
    }

    /// Appends one turn; the turns already present keep their places and
    /// values. This is the only way the context ever changes.
    pub fn add_turn(&mut self, role: AiRole, text: &str)
        ensures
            final(self)@ == old(self)@.push(TurnView { role, content: text@ }),
    {
        self.data.push(Turn::new(role, text));
        proof {
            assert(final(self)@ =~= old(self)@.push(TurnView { role, content: text@ }));
        }
    }

    /// Appends one turn given its wire role name. A name outside the closed
    /// role set is a programming error, ruled out by the precondition.
    pub fn add_to_context(&mut self, role: String, text: &str)
        requires
            parse_role(role@) is Some,
        ensures
            final(self)@ == old(self)@.push(
                TurnView { role: parse_role(role@).unwrap(), content: text@ },
            ),
    {
        if role == AiRole::get_string(&AiRole::System) {
            self.add_turn(AiRole::System, text);
        } else if role == AiRole::get_string(&AiRole::User) {
            self.add_turn(AiRole::User, text);
        } else {
            self.add_turn(AiRole::Assistant, text);
        }
    }

    /// An immutable copy of the whole buffer, turn for turn: the exact
    /// request payload handed to the completion backend. The backend never
    /// observes a context mutated mid-flight, because later appends touch
    /// only the original, not the copy.
    pub fn snapshot(&self) -> (r: ContextContent)
        ensures
            r@ == self@,
    {
        let mut data: Vec<Turn> = Vec::new();
        let n = self.data.len();
        let mut i: usize = 0;
        while i < n
            invariant
                n == self.data@.len(),
                i <= n,
                data@.len() == i,
                forall|j: int| 0 <= j < i ==> data@[j]@ == self.data@[j]@,
            decreases n - i,
        {
            data.push(self.data[i].duplicate());
            i += 1;
        }
        let r = ContextContent { data };
        proof {
            assert(r@ =~= self@);
        }
        r
    }
}

/// Append-only invariant: appending a turn never shrinks the context, and
/// every index a previous snapshot could have returned still holds the same
/// turn afterwards.
pub proof fn lemma_append_only(pre: Seq<TurnView>, t: TurnView)
    ensures
        pre.len() <= pre.push(t).len(),
        forall|i: int| 0 <= i < pre.len() ==> pre.push(t)[i] == pre[i],
{
}

/// System-turn immutability: if the turn at index 0 carries the System
/// role, it is still there, unchanged, after any number of appends.
pub proof fn lemma_system_turn_immutable(pre: Seq<TurnView>, added: Seq<TurnView>)
    requires
        0 < pre.len(),
        pre[0].role == AiRole::System,
    ensures
        0 < (pre + added).len(),
        (pre + added)[0] == pre[0],
        (pre + added)[0].role == AiRole::System,
{
}

/// Snapshot isolation: a snapshot equals the context at the moment it was
/// taken, so a turn appended afterwards lies wholly beyond the snapshot's
/// length and appears in none of its slots.
pub proof fn lemma_snapshot_isolation(snap: Seq<TurnView>, t: TurnView)
    ensures
        snap.len() < snap.push(t).len(),
        snap.push(t)[snap.len() as int] == t,
        forall|i: int| 0 <= i < snap.len() ==> snap.push(t)[i] == snap[i],
{
}

/// A context pre-seeded with the session's single System turn, as the
/// conversation loop starts from it.
pub fn init_context_vec() -> (r: ContextContent)
    ensures
        r@ == seq![
            TurnView { role: AiRole::System, content: "You Area a personal AI assistant."@ },
        ],
{
    let mut context_vec: ContextContent = ContextContent::new();
    let ai_init_prompt: &str = "You Area a personal AI assistant.";
    context_vec.add_to_context(AiRole::get_string(&AiRole::System), ai_init_prompt);
    proof {
        assert(context_vec@ =~= seq![
            TurnView { role: AiRole::System, content: "You Area a personal AI assistant."@ },
        ]);
    }
    context_vec
}

} // verus!
