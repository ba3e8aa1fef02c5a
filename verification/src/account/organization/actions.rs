//! Which actions an organization lets its repositories run.
use crate::account::organization::HandleOrganization;
use crate::client::{ClientError, Method, Payload, PayloadView, Request, RequestView};
use crate::text::{ordered_set, strictly_ascending, texts};
use vstd::prelude::*;
use vstd::string::StringExecFns;

verus! {

/// The actions that an organization allows: those of verified creators,
/// those of the service itself, and those that match one of the patterns.
#[derive(Debug, PartialEq, Eq)]
pub struct AllowedActions {
    pub verified: bool,
    pub native: bool,
    pub list: Vec<String>,
}

/// The handle of an organization's permissions for actions.
#[derive(Debug, PartialEq, Eq)]
pub struct HandleActions {
    pub organization: HandleOrganization,
}

/// `list` holds each text of `items` once, in dictionary order, and nothing else.
pub open spec fn is_ordered_set_of(list: Seq<Seq<char>>, items: Seq<Seq<char>>) -> bool {
    &&& strictly_ascending(list)
    &&& forall|text: Seq<char>| list.contains(text) <==> items.contains(text)
}

impl HandleActions {
    /// The handle for the given organization.
    pub fn from(organization: &HandleOrganization) -> (actions: HandleActions)
        ensures
            actions.organization == *organization,
    {
        HandleActions { organization: organization.clone() }
    }

    /// The path of the permissions.
    pub open spec fn endpoint(&self) -> Seq<char> {
        self.organization.endpoint() + "/actions/permissions/selected-actions"@
    }

    /// The path of the permissions.
    pub fn get_endpoint(&self) -> (endpoint: String)
        ensures
            endpoint@ == self.endpoint(),
    {
        let mut endpoint = self.organization.get_endpoint();
        endpoint.append("/actions/permissions/selected-actions");
        endpoint
    }

    /// The request that asks which actions are allowed now.
    pub fn get_request(&self) -> (request: Request)
        ensures
            request@ == RequestView::plain(Method::Get, self.endpoint()),
    {
        Request::new(Method::Get, self.get_endpoint(), Payload::Empty)
    }

    /// The request that writes the permissions back, all three of them.
    fn put_request(&self, verified: bool, native: bool, list: Vec<String>) -> (request: Request)
        ensures
            request@ == RequestView::with_payload(
                Method::Put,
                self.endpoint(),
                PayloadView::Actions { verified, native, list: texts(list@) },
            ),
    {
        Request::new(Method::Put, self.get_endpoint(), Payload::Actions { verified, native, list })
    }

    /// The request that replaces the patterns by `set`, each pattern once
    /// and in dictionary order; the two switches stay as they are now.
    pub fn try_set_allow_list(&self, set: &Vec<String>, current: AllowedActions) -> (request:
        Request)
        ensures
            request@.method == Method::Put,
            request@.endpoint == self.endpoint(),
            request@.query == Seq::<(Seq<char>, Seq<char>)>::empty(),
            request@.payload matches PayloadView::Actions { verified, native, list }
                && verified == current.verified && native == current.native
                && is_ordered_set_of(list, texts(set@)),
    {
        let list = ordered_set(set);
        self.put_request(current.verified, current.native, list)
    }

    /// The request that adds the patterns of `add` to those allowed now,
    /// each pattern once and in dictionary order; the two switches stay as
    /// they are now.
    pub fn try_add_allow_list(&self, add: &Vec<String>, current: AllowedActions) -> (request:
        Request)
        ensures
            request@.method == Method::Put,
            request@.endpoint == self.endpoint(),
            request@.query == Seq::<(Seq<char>, Seq<char>)>::empty(),
            request@.payload matches PayloadView::Actions { verified, native, list }
                && verified == current.verified && native == current.native
                && is_ordered_set_of(list, texts(current.list@) + texts(add@)),
    {
        let mut all = current.list;
        let ghost had = all@;
        let mut i: usize = 0;
        while i < add.len()
            invariant
                i <= add.len(),
                texts(all@) == texts(had) + texts(add@.take(i as int)),
            decreases add.len() - i,
        {
            let ghost before = all@;
            all.push(add[i].clone());
            i = i + 1;
            proof {
                assert(add@.take(i as int) == add@.take(i - 1).push(add@[i - 1]));
                assert(texts(all@) =~= texts(before).push(add@[i - 1]@));
                assert(texts(add@.take(i - 1).push(add@[i - 1])) =~= texts(
                    add@.take(i - 1),
                ).push(add@[i - 1]@));
            }
        }
        assert(add@.take(add.len() as int) == add@);
        let list = ordered_set(&all);
        self.put_request(current.verified, current.native, list)
    }

    /// The patterns allowed now, as the service answered.
    pub fn try_get_allow_list(answer: Result<AllowedActions, ClientError>) -> (list: Result<
        Vec<String>,
        ClientError,
    >)
        ensures
            list == match answer {
                Ok(current) => Ok::<Vec<String>, ClientError>(current.list),
                Err(error) => Err(error),
            },
    {
        match answer {
            Ok(current) => Ok(current.list),
            Err(error) => Err(error),
        }
    }

    /// The request that switches the service's own actions on or off; the
    /// other switch and the patterns stay as they are now.
    pub fn try_set_allow_native(&self, native: bool, current: AllowedActions) -> (request:
        Request)
        ensures
            request@ == RequestView::with_payload(
                Method::Put,
                self.endpoint(),
                PayloadView::Actions {
                    verified: current.verified,
                    native,
                    list: texts(current.list@),
                },
            ),
    {
        self.put_request(current.verified, native, current.list)
    }

    /// Whether the service's own actions are allowed now.
    pub fn try_get_allow_native(answer: Result<AllowedActions, ClientError>) -> (native: Result<
        bool,
        ClientError,
    >)
        ensures
            native == match answer {
                Ok(current) => Ok::<bool, ClientError>(current.native),
                Err(error) => Err(error),
            },
    {
        match answer {
            Ok(current) => Ok(current.native),
            Err(error) => Err(error),
        }
    }

    /// The request that switches the actions of verified creators on or off;
    /// the other switch and the patterns stay as they are now.
    pub fn try_set_allow_verified(&self, verified: bool, current: AllowedActions) -> (request:
        Request)
        ensures
            request@ == RequestView::with_payload(
                Method::Put,
                self.endpoint(),
                PayloadView::Actions {
                    verified,
                    native: current.native,
                    list: texts(current.list@),
                },
            ),
    {
        self.put_request(verified, current.native, current.list)
    }

    /// Whether the actions of verified creators are allowed now.
    pub fn try_get_allow_verified(answer: Result<AllowedActions, ClientError>) -> (verified:
        Result<bool, ClientError>)
        ensures
            verified == match answer {
                Ok(current) => Ok::<bool, ClientError>(current.verified),
                Err(error) => Err(error),
            },
    {
        match answer {
            Ok(current) => Ok(current.verified),
            Err(error) => Err(error),
        }
    }
}

} // verus!
