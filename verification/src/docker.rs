//! Container labels, the authorization policy they express, and the
//! resolution of a request to the container that serves it.
use crate::cli::{ContainerArgs, ContainerArgsView};
use crate::error::{GatewayError, GatewayErrorView};
use crate::text::{contains_text, same_text, split_on, split_text};
use vstd::hash_map::StringHashMap;
use vstd::prelude::*;
use vstd::string::StringExecFns;

verus! {

/// Label that switches a container on for the gateway; it must read `"true"`.
pub const SSH_ENABLE_LABEL_KEY: &'static str = "enable";

/// Label that holds the name under which a container is requested.
pub const SSH_HOSTNAME_LABEL_KEY: &'static str = "hostname";

/// Label that holds the comma-separated list of users allowed in.
pub const SSH_ALLOWED_USERS_LABEL_KEY: &'static str = "allowed-users";

/// The labels of one container: a finite map from label keys to values.
pub struct Labels {
    map: StringHashMap<String>,
}

impl View for Labels {
    type V = Map<Seq<char>, Seq<char>>;

    closed spec fn view(&self) -> Map<Seq<char>, Seq<char>> {
        self.map@.map_values(|v: String| v@)
    }
}

impl Labels {
    /// No labels at all.
    pub fn new() -> (labels: Self)
        ensures
            labels@ == Map::<Seq<char>, Seq<char>>::empty(),
    {
        let labels = Labels { map: StringHashMap::new() };
        assert(labels@ =~= Map::<Seq<char>, Seq<char>>::empty());
        labels
    }

    /// Sets the label `key` to `value`, replacing an earlier value.
    pub fn insert(&mut self, key: String, value: String)
        ensures
            final(self)@ == old(self)@.insert(key@, value@),
    {
        self.map.insert(key, value);
        assert(self@ =~= old(self)@.insert(key@, value@));
    }

    /// The value of the label `key`, if the container has it.
    pub fn get(&self, key: &str) -> (value: Option<&String>)
        ensures
            match value {
                Some(v) => self@.contains_key(key@) && self@[key@] == v@,
                None => !self@.contains_key(key@),
            },
    {
        self.map.get(key)
    }
}

/// The value of a label, with an absent label read as the empty text.
pub open spec fn label_or_empty(labels: Map<Seq<char>, Seq<char>>, key: Seq<char>) -> Seq<char> {
    if labels.contains_key(key) {
        labels[key]
    } else {
        Seq::<char>::empty()
    }
}

/// Whether an allow-list admits `user`. An empty list restricts nobody;
/// otherwise the user must be named, and be one of the comma-separated entries.
pub open spec fn user_allowed(allow_list: Seq<char>, user: Seq<char>) -> bool {
    allow_list.len() == 0 || (user.len() > 0 && split_on(allow_list, ',').contains(user))
}

/// The authorization policy that a container's labels express for a
/// requested target and user.
pub open spec fn label_policy_allows(
    labels: Map<Seq<char>, Seq<char>>,
    target: Seq<char>,
    user: Seq<char>,
) -> bool {
    &&& labels.contains_key(SSH_ENABLE_LABEL_KEY@)
    &&& labels[SSH_ENABLE_LABEL_KEY@] == "true"@
    &&& label_or_empty(labels, SSH_HOSTNAME_LABEL_KEY@) == target
    &&& user_allowed(label_or_empty(labels, SSH_ALLOWED_USERS_LABEL_KEY@), user)
}

/// Decides whether a container with these labels may be reached as `target` by `user`.
pub fn check_container_validity(labels: &Labels, target: &str, user: &str) -> (valid: bool)
    ensures
        valid == label_policy_allows(labels@, target@, user@),
{
    let enabled = match labels.get(SSH_ENABLE_LABEL_KEY) {
        Some(value) => same_text(value.as_str(), "true"),
        None => false,
    };
    if !enabled {
        return false;
    }
    let named = match labels.get(SSH_HOSTNAME_LABEL_KEY) {
        Some(hostname) => same_text(hostname.as_str(), target),
        None => target.is_empty(),
    };
    assert(target@.len() == 0 ==> target@ =~= Seq::<char>::empty());
    if !named {
        return false;
    }
    match labels.get(SSH_ALLOWED_USERS_LABEL_KEY) {
        None => true,
        Some(list) => {
            if list.as_str().is_empty() {
                true
            } else if user.is_empty() {
                false
            } else {
                let allow_users = split_text(list.as_str(), ',');
                contains_text(&allow_users, user)
            }
        },
    }
}

/// What the container engine reports of one container, as far as the gateway reads it.
pub struct ContainerRecord {
    pub id: Option<String>,
    pub labels: Option<Labels>,
}

/// The mathematical value of a `ContainerRecord`.
pub struct ContainerRecordView {
    pub id: Option<Seq<char>>,
    pub labels: Option<Map<Seq<char>, Seq<char>>>,
}

impl View for ContainerRecord {
    type V = ContainerRecordView;

    open spec fn view(&self) -> ContainerRecordView {
        ContainerRecordView {
            id: match self.id {
                Some(id) => Some(id@),
                None => None,
            },
            labels: match self.labels {
                Some(labels) => Some(labels@),
                None => None,
            },
        }
    }
}

/// The values of a list of container records, in the same order.
pub open spec fn records(list: Seq<ContainerRecord>) -> Seq<ContainerRecordView> {
    list.map_values(|c: ContainerRecord| c@)
}

/// Whether a container may serve a request: it has labels, and they allow
/// the requested target and user. A container without labels never does.
pub open spec fn eligible(record: ContainerRecordView, args: ContainerArgsView) -> bool {
    match record.labels {
        Some(labels) => label_policy_allows(labels, args.target, args.user_or_empty()),
        None => false,
    }
}

/// Whether position `i` holds the first eligible container of the list.
pub open spec fn is_first_eligible(
    list: Seq<ContainerRecordView>,
    args: ContainerArgsView,
    i: int,
) -> bool {
    &&& 0 <= i < list.len()
    &&& eligible(list[i], args)
    &&& forall|j: int| 0 <= j < i ==> !eligible(#[trigger] list[j], args)
}

/// Whether no container of the list is eligible.
pub open spec fn none_eligible(list: Seq<ContainerRecordView>, args: ContainerArgsView) -> bool {
    forall|j: int| 0 <= j < list.len() ==> !eligible(#[trigger] list[j], args)
}

/// Picks the container that serves a request: the first one, in the order
/// the engine listed them, that is eligible. Fails with `NotFound` exactly
/// when none is.
pub fn find_ssh_enabled_container<'a>(
    containers: &'a Vec<ContainerRecord>,
    args: &ContainerArgs,
) -> (found: Result<&'a ContainerRecord, GatewayError>)
    ensures
        match found {
            Ok(container) => exists|i: int|
                #[trigger] is_first_eligible(records(containers@), args@, i) && containers@[i]
                    == *container,
            Err(e) => e@ == GatewayErrorView::NotFound && none_eligible(
                records(containers@),
                args@,
            ),
        },
{
    let user: &str = match &args.user {
        Some(u) => u.as_str(),
        None => "",
    };
    proof {
        reveal_strlit("");
        assert(user@ =~= args@.user_or_empty());
    }
    let mut i: usize = 0;
    while i < containers.len()
        invariant
            i <= containers.len(),
            user@ == args@.user_or_empty(),
            forall|j: int| 0 <= j < i ==> !eligible(#[trigger] records(containers@)[j], args@),
        decreases containers.len() - i,
    {
        let container = &containers[i];
        let valid = match &container.labels {
            None => false,
            Some(labels) => check_container_validity(labels, args.target.as_str(), user),
        };
        assert(valid == eligible(records(containers@)[i as int], args@));
        if valid {
            assert(is_first_eligible(records(containers@), args@, i as int));
            return Ok(container);
        }
        i += 1;
    }
    Err(GatewayError::NotFound)
}

/// An exec request that names no user is never admitted by labels that
/// carry a non-empty allow-list, whatever the target.
pub proof fn lemma_unnamed_user_rejected(
    labels: Map<Seq<char>, Seq<char>>,
    target: Seq<char>,
    user: Seq<char>,
)
    requires
        user.len() == 0,
        label_or_empty(labels, SSH_ALLOWED_USERS_LABEL_KEY@).len() > 0,
    ensures
        !label_policy_allows(labels, target, user),
{
}

/// Among containers that all carry a non-empty allow-list, a request that
/// names no user finds nothing.
pub proof fn lemma_unnamed_user_finds_nothing(
    list: Seq<ContainerRecordView>,
    args: ContainerArgsView,
)
    requires
        args.user_or_empty().len() == 0,
        forall|j: int|
            0 <= j < list.len() ==> match (#[trigger] list[j]).labels {
                Some(labels) => label_or_empty(labels, SSH_ALLOWED_USERS_LABEL_KEY@).len() > 0,
                None => true,
            },
    ensures
        none_eligible(list, args),
        forall|i: int| !is_first_eligible(list, args, i),
{
}

/// At most one position is the first eligible one, so the container that a
/// request resolves to is determined by the list and the request alone.
pub proof fn lemma_first_eligible_unique(
    list: Seq<ContainerRecordView>,
    args: ContainerArgsView,
    i: int,
    j: int,
)
    requires
        is_first_eligible(list, args, i),
        is_first_eligible(list, args, j),
    ensures
        i == j,
{
}

/// What a request resolves to among the listed containers: the identifier
/// of the first eligible one. It fails with `NotFound` when none is
/// eligible, and with an engine error when the engine reported the chosen
/// container without an identifier.
pub open spec fn resolved_id(list: Seq<ContainerRecordView>, args: ContainerArgsView) -> Result<
    Seq<char>,
    GatewayErrorView,
> {
    if none_eligible(list, args) {
        Err(GatewayErrorView::NotFound)
    } else {
        let i = choose|i: int| is_first_eligible(list, args, i);
        match list[i].id {
            Some(id) => Ok(id),
            None => Err(GatewayErrorView::EngineError("Container Id not found"@)),
        }
    }
}

/// The value of the outcome of a resolution.
pub open spec fn id_outcome(outcome: Result<String, GatewayError>) -> Result<
    Seq<char>,
    GatewayErrorView,
> {
    match outcome {
        Ok(id) => Ok(id@),
        Err(e) => Err(e@),
    }
}

/// Resolves a request to the identifier of the container that serves it.
pub fn resolve_container_id(containers: &Vec<ContainerRecord>, args: &ContainerArgs) -> (outcome:
    Result<String, GatewayError>)
    ensures
        id_outcome(outcome) == resolved_id(records(containers@), args@),
{
    match find_ssh_enabled_container(containers, args) {
        Ok(container) => {
            proof {
                let list = records(containers@);
                let found = choose|i: int|
                    #[trigger] is_first_eligible(list, args@, i) && containers@[i] == *container;
                let chosen = choose|i: int| is_first_eligible(list, args@, i);
                lemma_first_eligible_unique(list, args@, found, chosen);
                assert(list[found] == container@);
            }
            match &container.id {
                Some(id) => Ok(id.clone()),
                None => Err(GatewayError::EngineError(String::from_str("Container Id not found"))),
            }
        },
        Err(e) => Err(e),
    }
}

} // verus!
