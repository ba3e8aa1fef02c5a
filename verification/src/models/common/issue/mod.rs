//! Issues as the service describes them.
use crate::models::common::user::User;
use crate::Number;
use vstd::prelude::*;

pub mod comment;

verus! {

/// Whether an issue is still to be dealt with.
#[derive(Debug, Clone, Copy, Hash, PartialEq, Eq, Structural)]
pub enum IssueState {
    Closed,
    Open,
}

impl IssueState {
    pub fn is_open(&self) -> (open: bool)
        ensures
            open == (*self == IssueState::Open),
    {
        match self {
            IssueState::Open => true,
            IssueState::Closed => false,
        }
    }

    pub fn is_closed(&self) -> (closed: bool)
        ensures
            closed == (*self == IssueState::Closed),
    {
        match self {
            IssueState::Open => false,
            IssueState::Closed => true,
        }
    }
}

/// What the service tells of an issue, plain or pull request alike.
#[derive(Debug, Hash, PartialEq, Eq)]
pub struct IssueContent {
    pub assignees: Option<Vec<User>>,
    pub number: Number,
    pub author: User,
    pub title: String,
    pub body: String,
    pub state: IssueState,
}

/// The given accounts, copied in their order.
pub fn copy_users(users: &Vec<User>) -> (copy: Vec<User>)
    ensures
        copy@ == users@,
{
    let mut copy: Vec<User> = Vec::new();
    let mut i: usize = 0;
    while i < users.len()
        invariant
            i <= users.len(),
            copy@ == users@.take(i as int),
        decreases users.len() - i,
    {
        copy.push(users[i].clone());
        i = i + 1;
        assert(copy@ == users@.take(i as int));
    }
    assert(users@.take(users.len() as int) == users@);
    copy
}

impl IssueContent {
    /// The accounts that the issue is assigned to; none where the service named none.
    pub open spec fn assigned(&self) -> Seq<User> {
        match self.assignees {
            Some(users) => users@,
            None => Seq::empty(),
        }
    }

    /// Who opened the issue.
    pub fn get_author(&self) -> (author: User)
        ensures
            author == self.author,
    {
        self.author.clone()
    }

    /// The number of the issue.
    pub fn get_number(&self) -> (number: usize)
        ensures
            number == self.number,
    {
        self.number
    }

    /// The title of the issue.
    pub fn get_title(&self) -> (title: String)
        ensures
            title == self.title,
    {
        self.title.clone()
    }

    /// Replaces the title.
    pub fn set_title(&mut self, title: &str)
        ensures
            final(self).title@ == title@,
            final(self).assignees == old(self).assignees,
            final(self).number == old(self).number,
            final(self).author == old(self).author,
            final(self).body == old(self).body,
            final(self).state == old(self).state,
    {
        self.title = title.to_owned();
    }

    /// The same issue with another title.
    pub fn with_title(self, title: &str) -> (issue: IssueContent)
        ensures
            issue.title@ == title@,
            issue.assignees == self.assignees,
            issue.number == self.number,
            issue.author == self.author,
            issue.body == self.body,
            issue.state == self.state,
    {
        let mut issue = self;
        issue.set_title(title);
        issue
    }

    /// The text of the issue.
    pub fn get_body(&self) -> (body: String)
        ensures
            body == self.body,
    {
        self.body.clone()
    }

    /// Replaces the text.
    pub fn set_body(&mut self, body: &str)
        ensures
            final(self).body@ == body@,
            final(self).assignees == old(self).assignees,
            final(self).number == old(self).number,
            final(self).author == old(self).author,
            final(self).title == old(self).title,
            final(self).state == old(self).state,
    {
        self.body = body.to_owned();
    }

    /// The same issue with another text.
    pub fn with_body(self, body: &str) -> (issue: IssueContent)
        ensures
            issue.body@ == body@,
            issue.assignees == self.assignees,
            issue.number == self.number,
            issue.author == self.author,
            issue.title == self.title,
            issue.state == self.state,
    {
        let mut issue = self;
        issue.set_body(body);
        issue
    }

    /// The state of the issue.
    pub fn get_state(&self) -> (state: IssueState)
        ensures
            state == self.state,
    {
        self.state
    }

    /// Replaces the state.
    pub fn set_state(&mut self, state: IssueState)
        ensures
            *final(self) == (IssueContent { state, ..*old(self) }),
    {
        self.state = state;
    }

    /// The same issue in another state.
    pub fn with_state(self, state: IssueState) -> (issue: IssueContent)
        ensures
            issue == (IssueContent { state, ..self }),
    {
        let mut issue = self;
        issue.set_state(state);
        issue
    }

    /// The accounts that the issue is assigned to.
    pub fn get_assignees(&self) -> (assignees: Vec<User>)
        ensures
            assignees@ == self.assigned(),
    {
        match &self.assignees {
            Some(users) => copy_users(users),
            None => Vec::new(),
        }
    }

    /// Replaces the accounts that the issue is assigned to.
    pub fn set_assignees(&mut self, assignees: &Vec<User>)
        ensures
            final(self).assigned() == assignees@,
            final(self).assignees is Some,
            final(self).number == old(self).number,
            final(self).author == old(self).author,
            final(self).title == old(self).title,
            final(self).body == old(self).body,
            final(self).state == old(self).state,
    {
        self.assignees = Some(copy_users(assignees));
    }

    /// The same issue assigned to other accounts.
    pub fn with_assignees(self, assignees: &Vec<User>) -> (issue: IssueContent)
        ensures
            issue.assigned() == assignees@,
            issue.assignees is Some,
            issue.number == self.number,
            issue.author == self.author,
            issue.title == self.title,
            issue.body == self.body,
            issue.state == self.state,
    {
        let mut issue = self;
        issue.set_assignees(assignees);
        issue
    }

    pub fn is_closed(&self) -> (closed: bool)
        ensures
            closed == (self.state == IssueState::Closed),
    {
        match self.state {
            IssueState::Closed => true,
            _ => false,
        }
    }

    /// Closes the issue.
    pub fn close(&mut self)
        ensures
            *final(self) == (IssueContent { state: IssueState::Closed, ..*old(self) }),
    {
        self.state = IssueState::Closed;
    }

    /// The same issue, closed.
    pub fn as_closed(self) -> (issue: IssueContent)
        ensures
            issue == (IssueContent { state: IssueState::Closed, ..self }),
    {
        let mut issue = self;
        issue.close();
        issue
    }

    pub fn is_open(&self) -> (open: bool)
        ensures
            open == (self.state == IssueState::Open),
    {
        match self.state {
            IssueState::Open => true,
            _ => false,
        }
    }

    /// Opens the issue again.
    pub fn open(&mut self)
        ensures
            *final(self) == (IssueContent { state: IssueState::Open, ..*old(self) }),
    {
        self.state = IssueState::Open;
    }

    /// The same issue, open.
    pub fn as_open(self) -> (issue: IssueContent)
        ensures
            issue == (IssueContent { state: IssueState::Open, ..self }),
    {
        let mut issue = self;
        issue.open();
        issue
    }

    /// The number, as the issue is shown.
    pub fn to_string(&self) -> (text: String)
        ensures
            text@ == crate::text::digits_of(self.number as nat, 10),
    {
        crate::text::decimal_text(self.number)
    }
}

impl Clone for IssueContent {
    fn clone(&self) -> (issue: IssueContent)
        ensures
            issue.assigned() == self.assigned(),
            issue.assignees is Some <==> self.assignees is Some,
            issue.number == self.number,
            issue.author == self.author,
            issue.title == self.title,
            issue.body == self.body,
            issue.state == self.state,
    {
        IssueContent {
            assignees: match &self.assignees {
                Some(users) => Some(copy_users(users)),
                None => None,
            },
            number: self.number,
            author: self.author.clone(),
            title: self.title.clone(),
            body: self.body.clone(),
            state: self.state,
        }
    }
}

/// An issue in the wide sense: a plain issue, or a pull request, which the
/// service lists among the issues.
#[derive(Debug, Hash, PartialEq, Eq)]
pub enum Issue {
    PullRequest(IssueContent),
    Plain(IssueContent),
}

impl Issue {
    /// What the service tells of the issue.
    pub open spec fn content(&self) -> IssueContent {
        match *self {
            Issue::PullRequest(content) => content,
            Issue::Plain(content) => content,
        }
    }

    /// The issue that a description stands for: a pull request exactly if
    /// the description came with a `pull_request` entry.
    pub fn from_content(pull_request: bool, content: IssueContent) -> (issue: Issue)
        ensures
            issue.content() == content,
            issue is PullRequest <==> pull_request,
    {
        if pull_request {
            Issue::PullRequest(content)
        } else {
            Issue::Plain(content)
        }
    }

    /// The issue that an object on the wire stands for. `keys` are the keys
    /// of the object: the issue is a pull request exactly if `pull_request`
    /// is among them, whatever stands under it.
    pub fn deserialize(keys: &Vec<String>, content: IssueContent) -> (issue: Issue)
        ensures
            issue.content() == content,
            issue is PullRequest <==> crate::text::texts(keys@).contains("pull_request"@),
    {
        let mut i: usize = 0;
        while i < keys.len()
            invariant
                i <= keys.len(),
                forall|k: int| 0 <= k < i ==> crate::text::texts(keys@)[k] != "pull_request"@,
            decreases keys.len() - i,
        {
            assert(crate::text::texts(keys@)[i as int] == keys@[i as int]@);
            if crate::text::same_text(keys[i].as_str(), "pull_request") {
                return Issue::PullRequest(content);
            }
            i = i + 1;
        }
        Issue::Plain(content)
    }

    /// Who opened the issue.
    pub fn get_author(&self) -> (author: User)
        ensures
            author == self.content().author,
    {
        match self {
            Issue::Plain(content) => content.get_author(),
            Issue::PullRequest(content) => content.get_author(),
        }
    }

    pub fn is_pull_request(&self) -> (is: bool)
        ensures
            is == (*self is PullRequest),
    {
        match self {
            Issue::Plain(_) => false,
            Issue::PullRequest(_) => true,
        }
    }

    pub fn is_plain(&self) -> (is: bool)
        ensures
            is == (*self is Plain),
    {
        match self {
            Issue::Plain(_) => true,
            Issue::PullRequest(_) => false,
        }
    }

    /// The state of the issue.
    pub fn get_state(&self) -> (state: IssueState)
        ensures
            state == self.content().state,
    {
        match self {
            Issue::Plain(content) => content.get_state(),
            Issue::PullRequest(content) => content.get_state(),
        }
    }

    pub fn is_open(&self) -> (open: bool)
        ensures
            open == (self.content().state == IssueState::Open),
    {
        match self {
            Issue::Plain(content) => content.is_open(),
            Issue::PullRequest(content) => content.is_open(),
        }
    }

    pub fn is_closed(&self) -> (closed: bool)
        ensures
            closed == (self.content().state == IssueState::Closed),
    {
        match self {
            Issue::Plain(content) => content.is_closed(),
            Issue::PullRequest(content) => content.is_closed(),
        }
    }

    /// What the service tells of the issue.
    pub fn deref(&self) -> (content: &IssueContent)
        ensures
            *content == self.content(),
    {
        match self {
            Issue::Plain(content) => content,
            Issue::PullRequest(content) => content,
        }
    }

    /// The number, as the issue is shown.
    pub fn to_string(&self) -> (text: String)
        ensures
            text@ == crate::text::digits_of(self.content().number as nat, 10),
    {
        self.deref().to_string()
    }
}

} // verus!
