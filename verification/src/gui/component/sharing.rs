use vstd::prelude::*;

verus! {

/// The tab with the room, passcode and invite link.
pub struct InviteTab {}

/// The tab listing pending and admitted viewers.
pub struct ViewersTab {}

impl InviteTab {
    /// The tab's title.
    pub fn title(&self) -> (t: String)
        ensures
            t@ == "Invite"@,
    {
        "Invite".to_owned()
    }
}

impl ViewersTab {
    /// The tab's title.
    pub fn title(&self) -> (t: String)
        ensures
            t@ == "Viewers"@,
    {
        "Viewers".to_owned()
    }
}

/// The sharing page: which of its tabs is shown.
pub struct SharingPage {
    current_tab: usize,
}

/// What the sharing page is asked to do; `V` identifies a viewer.
#[derive(Debug)]
pub enum Message<V> {
    Stop,
    CopyRoomID,
    CopyPasscode,
    CopyInviteLink,
    ChangeTab(usize),
    DeclineJoin(V),
    AcceptJoin(V),
    KickViewer(V),
}

/// What the page hands back to be carried out after a message.
#[derive(Debug)]
pub enum SharingAction<V> {
    /// Nothing to carry out.
    Nothing,
    /// Put this text on the clipboard.
    WriteClipboard(String),
    /// End the sharing session.
    Shutdown,
    /// Refuse a viewer that asked to join.
    DeclineViewer(V),
    /// Admit a viewer that asked to join.
    PermitViewer(V),
    /// Remove a viewer from the session.
    KickViewer(V),
}

/// What copying a session value does: put it on the clipboard when the
/// session has it.
pub open spec fn copy_action<V>(value: Option<String>) -> SharingAction<V> {
    match value {
        Some(v) => SharingAction::WriteClipboard(v),
        None => SharingAction::Nothing,
    }
}

/// The action a message asks for, given the session's invite link, room
/// id and passcode (each `None` while the session has none).
pub open spec fn action_for<V>(
    message: Message<V>,
    invite_link: Option<String>,
    room_id: Option<String>,
    room_password: Option<String>,
) -> SharingAction<V> {
    match message {
        Message::CopyInviteLink => copy_action(invite_link),
        Message::CopyRoomID => copy_action(room_id),
        Message::CopyPasscode => copy_action(room_password),
        Message::Stop => SharingAction::Shutdown,
        Message::ChangeTab(_) => SharingAction::Nothing,
        Message::DeclineJoin(v) => SharingAction::DeclineViewer(v),
        Message::AcceptJoin(v) => SharingAction::PermitViewer(v),
        Message::KickViewer(v) => SharingAction::KickViewer(v),
    }
}

/// Each copy message copies its own value of the session, whatever the
/// other two are: the invite link, the room id, the passcode; nothing is
/// copied while the session lacks that value. Stopping ends the session,
/// and the viewer messages act on the viewer they name.
pub proof fn law_sharing_actions<V>(
    link: Option<String>,
    room_id: Option<String>,
    password: Option<String>,
    other_link: Option<String>,
    other_room_id: Option<String>,
    other_password: Option<String>,
    viewer: V,
)
    ensures
        action_for::<V>(Message::CopyInviteLink, link, other_room_id, other_password) == (match link {
            Some(l) => SharingAction::<V>::WriteClipboard(l),
            None => SharingAction::<V>::Nothing,
        }),
        action_for::<V>(Message::CopyRoomID, other_link, room_id, other_password) == (match room_id {
            Some(r) => SharingAction::<V>::WriteClipboard(r),
            None => SharingAction::<V>::Nothing,
        }),
        action_for::<V>(Message::CopyPasscode, other_link, other_room_id, password) == (match password {
            Some(p) => SharingAction::<V>::WriteClipboard(p),
            None => SharingAction::<V>::Nothing,
        }),
        action_for::<V>(Message::Stop, link, room_id, password) == SharingAction::<V>::Shutdown,
        action_for(Message::DeclineJoin(viewer), link, room_id, password)
            == SharingAction::DeclineViewer(viewer),
        action_for(Message::AcceptJoin(viewer), link, room_id, password)
            == SharingAction::PermitViewer(viewer),
        action_for(Message::KickViewer(viewer), link, room_id, password)
            == SharingAction::KickViewer(viewer),
{
}

impl SharingPage {
    /// The index of the tab shown.
    pub closed spec fn tab(&self) -> usize {
        self.current_tab
    }

    /// A page showing its first tab.
    pub fn new() -> (page: Self)
        ensures
            page.tab() == 0,
    {
        SharingPage { current_tab: 0 }
    }

    /// The index of the tab shown.
    pub fn current_tab(&self) -> (tab: usize)
        ensures
            tab == self.tab(),
    {
        self.current_tab
    }

    /// Handles a message: a tab change switches the tab shown; every other
    /// message leaves the page as it is and yields the action to carry out.
    pub fn update<V>(
        &mut self,
        message: Message<V>,
        invite_link: Option<String>,
        room_id: Option<String>,
        room_password: Option<String>,
    ) -> (action: SharingAction<V>)
        ensures
            action == action_for(message, invite_link, room_id, room_password),
            final(self).tab() == (match message {
                Message::ChangeTab(t) => t,
                _ => old(self).tab(),
            }),
    {
        match message {
            Message::CopyInviteLink => match invite_link {
                Some(link) => SharingAction::WriteClipboard(link),
                None => SharingAction::Nothing,
            },
            Message::CopyRoomID => match room_id {
                Some(id) => SharingAction::WriteClipboard(id),
                None => SharingAction::Nothing,
            },
            Message::CopyPasscode => match room_password {
                Some(p) => SharingAction::WriteClipboard(p),
                None => SharingAction::Nothing,
            },
            Message::Stop => SharingAction::Shutdown,
            Message::ChangeTab(tab) => {
                self.current_tab = tab;
                SharingAction::Nothing
            },
            Message::DeclineJoin(v) => SharingAction::DeclineViewer(v),
            Message::AcceptJoin(v) => SharingAction::PermitViewer(v),
            Message::KickViewer(v) => SharingAction::KickViewer(v),
        }
    }
}

} // verus!
