//! The state of the client.
use crate::conversation_store::{ConversationStore, ConversationStoreView};
use crate::db::{DbJob, DbJobView};
use crate::kindset::{Kind, KindSet};
use crate::keybindings::{KeyAction, KeyBindings, KeyBindingsView};
use crate::keys::KeyCombo;
use crate::signal::{
    Duplicate, IdentityInfo, IdentityInfoView, PollData, PollDataView, PollOption, PollOptionView,
    TrustLevel,
};
use crate::strmap::{StrMap, StrSet};
use vstd::prelude::*;

verus! {

// ---------------------------------------------------------------------------
// Small values
// ---------------------------------------------------------------------------

/// Whether keys are commands or text.
#[derive(Debug, Clone, Copy, PartialEq, Eq, Structural)]
pub enum InputMode {
    Normal,
    Insert,
}

impl DeepView for InputMode {
    type V = InputMode;

    open spec fn deep_view(&self) -> InputMode {
        *self
    }
}

/// What is being completed.
#[derive(Debug, Clone, Copy, PartialEq, Eq, Structural)]
pub enum AutocompleteMode {
    /// A command at the start of the input.
    Command,
    /// A mention of a contact.
    Mention,
    /// The conversation that `/join` names.
    Join,
}

impl DeepView for AutocompleteMode {
    type V = AutocompleteMode;

    open spec fn deep_view(&self) -> AutocompleteMode {
        *self
    }
}

/// Which part of the group menu is open.
#[derive(Debug, Clone, Copy, PartialEq, Eq, Structural)]
pub enum GroupMenuState {
    /// The list of what can be done.
    Menu,
    /// The members, to be read.
    Members,
    /// The contacts, one to be added.
    AddMember,
    /// The members, one to be removed.
    RemoveMember,
    /// The name of the group, to be edited.
    Rename,
    /// The name of a new group.
    Create,
    /// The question whether to leave.
    LeaveConfirm,
}

impl DeepView for GroupMenuState {
    type V = GroupMenuState;

    open spec fn deep_view(&self) -> GroupMenuState {
        *self
    }
}

/// How the terminal shows images.
#[derive(Debug, Clone, Copy, PartialEq, Eq, Structural)]
pub enum ImageProtocol {
    /// The Kitty graphics protocol.
    Kitty,
    /// The inline images protocol of iTerm2.
    Iterm2,
    /// Half blocks of text, which every terminal has.
    Halfblock,
}

impl DeepView for ImageProtocol {
    type V = ImageProtocol;

    open spec fn deep_view(&self) -> ImageProtocol {
        *self
    }
}

/// What the emoji picker was opened for.
#[derive(Debug, Clone, Copy, PartialEq, Eq, Structural)]
pub enum EmojiPickerSource {
    /// To insert the emoji into the input.
    Input,
    /// To react to the focused message.
    Reaction,
}

impl DeepView for EmojiPickerSource {
    type V = EmojiPickerSource;

    open spec fn deep_view(&self) -> EmojiPickerSource {
        *self
    }
}

/// An area of the screen, in cells.
#[derive(Debug, Clone, Copy, PartialEq, Eq, Structural)]
pub struct Rect {
    pub x: u16,
    pub y: u16,
    pub width: u16,
    pub height: u16,
}

impl DeepView for Rect {
    type V = Rect;

    open spec fn deep_view(&self) -> Rect {
        *self
    }
}

/// What can be switched on and off.
#[derive(Debug, Clone, Copy, PartialEq, Eq, Structural)]
pub enum Setting {
    /// Terminal bell for direct messages in other conversations.
    NotifyDirect,
    /// Terminal bell for group messages in other conversations.
    NotifyGroup,
    /// Desktop notifications for incoming messages.
    DesktopNotifications,
    /// The sidebar is shown.
    SidebarVisible,
    /// Image previews in the chat.
    InlineImages,
    /// Link previews in the chat.
    ShowLinkPreviews,
    /// Native image protocols instead of half blocks.
    NativeImages,
    /// Date lines between messages of different days.
    DateSeparators,
    /// Status symbols on outgoing messages.
    ShowReceipts,
    /// Coloured status symbols.
    ColorReceipts,
    /// Nerd Font glyphs.
    NerdFonts,
    /// Emoji shown as text.
    EmojiToText,
    /// Reactions shown on messages.
    ShowReactions,
    /// Names instead of counts on reactions.
    ReactionVerbose,
    /// Read receipts are sent.
    SendReadReceipts,
    /// Mouse support.
    MouseEnabled,
    /// The sidebar stands on the right.
    SidebarOnRight,
}

impl DeepView for Setting {
    type V = Setting;

    open spec fn deep_view(&self) -> Setting {
        *self
    }
}

impl Kind for Setting {
    fn is(self, other: Setting) -> (r: bool) {
        self == other
    }
}

/// What can be open over the conversation.
#[derive(Debug, Clone, Copy, PartialEq, Eq, Structural)]
pub enum Overlay {
    Settings,
    Help,
    Contacts,
    Verify,
    ReactionPicker,
    DeleteConfirm,
    ActionMenu,
    Forward,
    MessageRequest,
    ThemePicker,
    Keybindings,
    PinDuration,
    PollVote,
    About,
    Profile,
    SettingsProfiles,
    FileBrowser,
    Search,
    EmojiPicker,
    Autocomplete,
}

impl DeepView for Overlay {
    type V = Overlay;

    open spec fn deep_view(&self) -> Overlay {
        *self
    }
}

impl Kind for Overlay {
    fn is(self, other: Overlay) -> (r: bool) {
        self == other
    }
}

/// What holds or does not hold of the client.
#[derive(Debug, Clone, Copy, PartialEq, Eq, Structural)]
pub enum Flag {
    /// The client is to end.
    ShouldQuit,
    /// A first request to quit has been made with text in the input.
    QuitConfirm,
    /// The service answers.
    Connected,
    /// The first contact list has not come yet.
    Loading,
    /// Nothing is kept on disk.
    Incognito,
    /// The client shows made-up conversations.
    Demo,
    /// The terminal bell is to ring.
    Bell,
    /// Mouse support was on when the settings were opened.
    MouseSnapshot,
    /// The sidebar is being filtered.
    SidebarFilter,
    /// The service was told that one is typing.
    TypingSent,
    /// The conversation is scrolled to its top and has more messages.
    AtScrollTop,
    /// The next request to verify an identity does so.
    VerifyConfirming,
    /// The next key is bound to an action.
    CapturingKey,
    /// The list of profiles of key bindings is open.
    KeyProfilePicker,
    /// A field of the own profile is being edited.
    EditingProfile,
    /// The name of a new settings profile is being entered.
    SavingProfileAs,
}

impl DeepView for Flag {
    type V = Flag;

    open spec fn deep_view(&self) -> Flag {
        *self
    }
}

impl Kind for Flag {
    fn is(self, other: Flag) -> (r: bool) {
        self == other
    }
}

/// The areas that the mouse can click.
#[derive(Debug, Clone, Copy, PartialEq, Eq, Structural)]
pub struct MouseState {
    /// The list in the sidebar, where that is shown.
    pub sidebar_inner: Option<Rect>,
    pub messages_area: Rect,
    /// The input box with its borders.
    pub input_area: Rect,
    /// The width of what stands before the input.
    pub input_prefix_len: u16,
    /// Mouse capture is to be switched on or off.
    pub pending_toggle: Option<bool>,
}

impl DeepView for MouseState {
    type V = MouseState;

    open spec fn deep_view(&self) -> MouseState {
        *self
    }
}

// ---------------------------------------------------------------------------
// Requests
// ---------------------------------------------------------------------------

/// What is to be sent to the service.
pub enum SendRequest {
    Message {
        recipient: String,
        body: String,
        is_group: bool,
        local_ts_ms: i64,
        mentions: Vec<(usize, String)>,
        attachment: Option<String>,
        quote_timestamp: Option<i64>,
        quote_author: Option<String>,
        quote_body: Option<String>,
    },
    Reaction {
        conv_id: String,
        emoji: String,
        is_group: bool,
        target_author: String,
        target_timestamp: i64,
        remove: bool,
    },
    Edit {
        recipient: String,
        body: String,
        is_group: bool,
        edit_timestamp: i64,
        local_ts_ms: i64,
        mentions: Vec<(usize, String)>,
        quote_timestamp: Option<i64>,
        quote_author: Option<String>,
        quote_body: Option<String>,
    },
    RemoteDelete { recipient: String, is_group: bool, target_timestamp: i64 },
    Typing { recipient: String, is_group: bool, stop: bool },
    ReadReceipt { recipient: String, timestamps: Vec<i64> },
    UpdateExpiration { conv_id: String, is_group: bool, seconds: i64 },
    CreateGroup { name: String },
    AddGroupMembers { group_id: String, members: Vec<String> },
    RemoveGroupMembers { group_id: String, members: Vec<String> },
    RenameGroup { group_id: String, name: String },
    LeaveGroup { group_id: String },
    MessageRequestResponse { recipient: String, is_group: bool, response_type: String },
    Block { recipient: String, is_group: bool },
    Unblock { recipient: String, is_group: bool },
    Pin {
        recipient: String,
        is_group: bool,
        target_author: String,
        target_timestamp: i64,
        pin_duration: i64,
    },
    Unpin { recipient: String, is_group: bool, target_author: String, target_timestamp: i64 },
    PollCreate {
        recipient: String,
        is_group: bool,
        question: String,
        options: Vec<String>,
        allow_multiple: bool,
        local_ts_ms: i64,
    },
    PollVote {
        recipient: String,
        is_group: bool,
        poll_author: String,
        poll_timestamp: i64,
        option_indexes: Vec<i64>,
        vote_count: i64,
    },
    PollTerminate { recipient: String, is_group: bool, poll_timestamp: i64 },
    ListIdentities,
    TrustIdentity { recipient: String, safety_number: String },
    UpdateProfile { given_name: String, family_name: String, about: String, about_emoji: String },
}

/// What a [`SendRequest`] stands for.
pub enum SendRequestView {
    Message {
        recipient: Seq<char>,
        body: Seq<char>,
        is_group: bool,
        local_ts_ms: i64,
        mentions: Seq<(usize, Seq<char>)>,
        attachment: Option<Seq<char>>,
        quote_timestamp: Option<i64>,
        quote_author: Option<Seq<char>>,
        quote_body: Option<Seq<char>>,
    },
    Reaction {
        conv_id: Seq<char>,
        emoji: Seq<char>,
        is_group: bool,
        target_author: Seq<char>,
        target_timestamp: i64,
        remove: bool,
    },
    Edit {
        recipient: Seq<char>,
        body: Seq<char>,
        is_group: bool,
        edit_timestamp: i64,
        local_ts_ms: i64,
        mentions: Seq<(usize, Seq<char>)>,
        quote_timestamp: Option<i64>,
        quote_author: Option<Seq<char>>,
        quote_body: Option<Seq<char>>,
    },
    RemoteDelete { recipient: Seq<char>, is_group: bool, target_timestamp: i64 },
    Typing { recipient: Seq<char>, is_group: bool, stop: bool },
    ReadReceipt { recipient: Seq<char>, timestamps: Seq<i64> },
    UpdateExpiration { conv_id: Seq<char>, is_group: bool, seconds: i64 },
    CreateGroup { name: Seq<char> },
    AddGroupMembers { group_id: Seq<char>, members: Seq<Seq<char>> },
    RemoveGroupMembers { group_id: Seq<char>, members: Seq<Seq<char>> },
    RenameGroup { group_id: Seq<char>, name: Seq<char> },
    LeaveGroup { group_id: Seq<char> },
    MessageRequestResponse { recipient: Seq<char>, is_group: bool, response_type: Seq<char> },
    Block { recipient: Seq<char>, is_group: bool },
    Unblock { recipient: Seq<char>, is_group: bool },
    Pin {
        recipient: Seq<char>,
        is_group: bool,
        target_author: Seq<char>,
        target_timestamp: i64,
        pin_duration: i64,
    },
    Unpin { recipient: Seq<char>, is_group: bool, target_author: Seq<char>, target_timestamp: i64 },
    PollCreate {
        recipient: Seq<char>,
        is_group: bool,
        question: Seq<char>,
        options: Seq<Seq<char>>,
        allow_multiple: bool,
        local_ts_ms: i64,
    },
    PollVote {
        recipient: Seq<char>,
        is_group: bool,
        poll_author: Seq<char>,
        poll_timestamp: i64,
        option_indexes: Seq<i64>,
        vote_count: i64,
    },
    PollTerminate { recipient: Seq<char>, is_group: bool, poll_timestamp: i64 },
    ListIdentities,
    TrustIdentity { recipient: Seq<char>, safety_number: Seq<char> },
    UpdateProfile {
        given_name: Seq<char>,
        family_name: Seq<char>,
        about: Seq<char>,
        about_emoji: Seq<char>,
    },
}

impl DeepView for SendRequest {
    type V = SendRequestView;

    open spec fn deep_view(&self) -> SendRequestView {
        match self {
            SendRequest::Message {
                recipient,
                body,
                is_group,
                local_ts_ms,
                mentions,
                attachment,
                quote_timestamp,
                quote_author,
                quote_body,
            } => SendRequestView::Message {
                recipient: recipient@,
                body: body@,
                is_group: *is_group,
                local_ts_ms: *local_ts_ms,
                mentions: mentions.deep_view(),
                attachment: attachment.deep_view(),
                quote_timestamp: *quote_timestamp,
                quote_author: quote_author.deep_view(),
                quote_body: quote_body.deep_view(),
            },
            SendRequest::Reaction {
                conv_id,
                emoji,
                is_group,
                target_author,
                target_timestamp,
                remove,
            } => SendRequestView::Reaction {
                conv_id: conv_id@,
                emoji: emoji@,
                is_group: *is_group,
                target_author: target_author@,
                target_timestamp: *target_timestamp,
                remove: *remove,
            },
            SendRequest::Edit {
                recipient,
                body,
                is_group,
                edit_timestamp,
                local_ts_ms,
                mentions,
                quote_timestamp,
                quote_author,
                quote_body,
            } => SendRequestView::Edit {
                recipient: recipient@,
                body: body@,
                is_group: *is_group,
                edit_timestamp: *edit_timestamp,
                local_ts_ms: *local_ts_ms,
                mentions: mentions.deep_view(),
                quote_timestamp: *quote_timestamp,
                quote_author: quote_author.deep_view(),
                quote_body: quote_body.deep_view(),
            },
            SendRequest::RemoteDelete {
                recipient,
                is_group,
                target_timestamp,
            } => SendRequestView::RemoteDelete {
                recipient: recipient@,
                is_group: *is_group,
                target_timestamp: *target_timestamp,
            },
            SendRequest::Typing { recipient, is_group, stop } => SendRequestView::Typing {
                recipient: recipient@,
                is_group: *is_group,
                stop: *stop,
            },
            SendRequest::ReadReceipt { recipient, timestamps } => SendRequestView::ReadReceipt {
                recipient: recipient@,
                timestamps: timestamps.deep_view(),
            },
            SendRequest::UpdateExpiration {
                conv_id,
                is_group,
                seconds,
            } => SendRequestView::UpdateExpiration {
                conv_id: conv_id@,
                is_group: *is_group,
                seconds: *seconds,
            },
            SendRequest::CreateGroup { name } => SendRequestView::CreateGroup {
                name: name@,
            },
            SendRequest::AddGroupMembers { group_id, members } => SendRequestView::AddGroupMembers {
                group_id: group_id@,
                members: members.deep_view(),
            },
            SendRequest::RemoveGroupMembers {
                group_id,
                members,
            } => SendRequestView::RemoveGroupMembers {
                group_id: group_id@,
                members: members.deep_view(),
            },
            SendRequest::RenameGroup { group_id, name } => SendRequestView::RenameGroup {
                group_id: group_id@,
                name: name@,
            },
            SendRequest::LeaveGroup { group_id } => SendRequestView::LeaveGroup {
                group_id: group_id@,
            },
            SendRequest::MessageRequestResponse {
                recipient,
                is_group,
                response_type,
            } => SendRequestView::MessageRequestResponse {
                recipient: recipient@,
                is_group: *is_group,
                response_type: response_type@,
            },
            SendRequest::Block { recipient, is_group } => SendRequestView::Block {
                recipient: recipient@,
                is_group: *is_group,
            },
            SendRequest::Unblock { recipient, is_group } => SendRequestView::Unblock {
                recipient: recipient@,
                is_group: *is_group,
            },
            SendRequest::Pin {
                recipient,
                is_group,
                target_author,
                target_timestamp,
                pin_duration,
            } => SendRequestView::Pin {
                recipient: recipient@,
                is_group: *is_group,
                target_author: target_author@,
                target_timestamp: *target_timestamp,
                pin_duration: *pin_duration,
            },
            SendRequest::Unpin {
                recipient,
                is_group,
                target_author,
                target_timestamp,
            } => SendRequestView::Unpin {
                recipient: recipient@,
                is_group: *is_group,
                target_author: target_author@,
                target_timestamp: *target_timestamp,
            },
            SendRequest::PollCreate {
                recipient,
                is_group,
                question,
                options,
                allow_multiple,
                local_ts_ms,
            } => SendRequestView::PollCreate {
                recipient: recipient@,
                is_group: *is_group,
                question: question@,
                options: options.deep_view(),
                allow_multiple: *allow_multiple,
                local_ts_ms: *local_ts_ms,
            },
            SendRequest::PollVote {
                recipient,
                is_group,
                poll_author,
                poll_timestamp,
                option_indexes,
                vote_count,
            } => SendRequestView::PollVote {
                recipient: recipient@,
                is_group: *is_group,
                poll_author: poll_author@,
                poll_timestamp: *poll_timestamp,
                option_indexes: option_indexes.deep_view(),
                vote_count: *vote_count,
            },
            SendRequest::PollTerminate {
                recipient,
                is_group,
                poll_timestamp,
            } => SendRequestView::PollTerminate {
                recipient: recipient@,
                is_group: *is_group,
                poll_timestamp: *poll_timestamp,
            },
            SendRequest::ListIdentities => SendRequestView::ListIdentities,
            SendRequest::TrustIdentity {
                recipient,
                safety_number,
            } => SendRequestView::TrustIdentity {
                recipient: recipient@,
                safety_number: safety_number@,
            },
            SendRequest::UpdateProfile {
                given_name,
                family_name,
                about,
                about_emoji,
            } => SendRequestView::UpdateProfile {
                given_name: given_name@,
                family_name: family_name@,
                about: about@,
                about_emoji: about_emoji@,
            },
        }
    }
}

/// Settings under a name.
pub struct SettingsProfile {
    pub name: String,
    /// Whether the profile comes with the client and cannot be changed.
    pub builtin: bool,
    pub settings: KindSet<Setting>,
    pub notification_preview: String,
}

/// What a [`SettingsProfile`] stands for.
pub struct SettingsProfileView {
    pub name: Seq<char>,
    pub builtin: bool,
    pub settings: Set<Setting>,
    pub notification_preview: Seq<char>,
}

impl DeepView for SettingsProfile {
    type V = SettingsProfileView;

    open spec fn deep_view(&self) -> SettingsProfileView {
        SettingsProfileView {
            name: self.name@,
            builtin: self.builtin,
            settings: self.settings.deep_view(),
            notification_preview: self.notification_preview@,
        }
    }
}

impl Duplicate for SettingsProfile {
    fn duplicate(&self) -> (r: SettingsProfile) {
        SettingsProfile {
            name: self.name.clone(),
            builtin: self.builtin,
            settings: self.settings.copied(),
            notification_preview: self.notification_preview.clone(),
        }
    }
}

impl Clone for SettingsProfile {
    fn clone(&self) -> (r: SettingsProfile)
        ensures
            r.deep_view() == self.deep_view(),
    {
        self.duplicate()
    }
}

/// What is to be done outside the library.
pub enum Effect {
    /// Writes the settings and the key bindings to their files.
    SaveSettings,
    /// Reads the settings profiles.
    LoadSettingsProfiles,
    /// Writes a settings profile.
    SaveSettingsProfile(SettingsProfile),
    /// Deletes a settings profile.
    DeleteSettingsProfile(String),
    /// Reads a profile of key bindings.
    LoadKeyProfile(String),
    /// Lists a directory.
    ReadDirectory(String),
    /// Searches the messages of a conversation, or of all.
    Search { conv_id: Option<String>, query: String },
    /// Puts a text into the clipboard.
    CopyText(String),
    /// Empties the clipboard.
    ClearClipboard,
    /// Reads the clipboard.
    ReadClipboard,
    /// Opens a link.
    OpenUrl(String),
    /// Shows a desktop notification.
    Notify { title: String, body: String },
    /// Removes a file.
    RemoveFile(String),
    /// Puts a message with its time and its sender into the clipboard.
    CopyLine { timestamp_ms: i64, sender: String, body: String },
    /// Writes the messages of a conversation, from one on, to a file.
    Export { conversation: String, start: usize },
    /// Draws an image with half blocks.
    RenderImage {
        conversation: String,
        timestamp_ms: i64,
        is_preview: bool,
        path: String,
        max_width: u32,
    },
}

/// What a [`Effect`] stands for.
pub enum EffectView {
    SaveSettings,
    LoadSettingsProfiles,
    SaveSettingsProfile(SettingsProfileView),
    DeleteSettingsProfile(Seq<char>),
    LoadKeyProfile(Seq<char>),
    ReadDirectory(Seq<char>),
    Search { conv_id: Option<Seq<char>>, query: Seq<char> },
    CopyText(Seq<char>),
    ClearClipboard,
    ReadClipboard,
    OpenUrl(Seq<char>),
    Notify { title: Seq<char>, body: Seq<char> },
    RemoveFile(Seq<char>),
    CopyLine { timestamp_ms: i64, sender: Seq<char>, body: Seq<char> },
    Export { conversation: Seq<char>, start: usize },
    RenderImage {
        conversation: Seq<char>,
        timestamp_ms: i64,
        is_preview: bool,
        path: Seq<char>,
        max_width: u32,
    },
}

impl DeepView for Effect {
    type V = EffectView;

    open spec fn deep_view(&self) -> EffectView {
        match self {
            Effect::SaveSettings => EffectView::SaveSettings,
            Effect::LoadSettingsProfiles => EffectView::LoadSettingsProfiles,
            Effect::SaveSettingsProfile(a) => EffectView::SaveSettingsProfile(a.deep_view()),
            Effect::DeleteSettingsProfile(a) => EffectView::DeleteSettingsProfile(a@),
            Effect::LoadKeyProfile(a) => EffectView::LoadKeyProfile(a@),
            Effect::ReadDirectory(a) => EffectView::ReadDirectory(a@),
            Effect::Search { conv_id, query } => EffectView::Search {
                conv_id: conv_id.deep_view(),
                query: query@,
            },
            Effect::CopyText(a) => EffectView::CopyText(a@),
            Effect::ClearClipboard => EffectView::ClearClipboard,
            Effect::ReadClipboard => EffectView::ReadClipboard,
            Effect::OpenUrl(a) => EffectView::OpenUrl(a@),
            Effect::Notify { title, body } => EffectView::Notify {
                title: title@,
                body: body@,
            },
            Effect::RemoveFile(a) => EffectView::RemoveFile(a@),
            Effect::CopyLine { timestamp_ms, sender, body } => EffectView::CopyLine {
                timestamp_ms: *timestamp_ms,
                sender: sender@,
                body: body@,
            },
            Effect::Export { conversation, start } => EffectView::Export {
                conversation: conversation@,
                start: *start,
            },
            Effect::RenderImage {
                conversation,
                timestamp_ms,
                is_preview,
                path,
                max_width,
            } => EffectView::RenderImage {
                conversation: conversation@,
                timestamp_ms: *timestamp_ms,
                is_preview: *is_preview,
                path: path@,
                max_width: *max_width,
            },
        }
    }
}

// ---------------------------------------------------------------------------
// Parts of the state
// ---------------------------------------------------------------------------

/// The input line.
pub struct InputState {
    /// What stands before the cursor.
    pub before: String,
    /// What stands behind the cursor.
    pub after: String,
    /// What was submitted, oldest first.
    pub history: Vec<String>,
    /// The entry of the history that is shown.
    pub history_index: Option<usize>,
    /// What stood in the input before the history was shown.
    pub history_draft: String,
}

/// What a [`InputState`] stands for.
pub struct InputStateView {
    pub before: Seq<char>,
    pub after: Seq<char>,
    pub history: Seq<Seq<char>>,
    pub history_index: Option<usize>,
    pub history_draft: Seq<char>,
}

impl DeepView for InputState {
    type V = InputStateView;

    open spec fn deep_view(&self) -> InputStateView {
        InputStateView {
            before: self.before@,
            after: self.after@,
            history: self.history.deep_view(),
            history_index: self.history_index,
            history_draft: self.history_draft@,
        }
    }
}

/// The sidebar.
pub struct SidebarState {
    pub width: u16,
    pub filter: String,
    /// The conversations that match the filter.
    pub filtered: Vec<String>,
}

/// What a [`SidebarState`] stands for.
pub struct SidebarStateView {
    pub width: u16,
    pub filter: Seq<char>,
    pub filtered: Seq<Seq<char>>,
}

impl DeepView for SidebarState {
    type V = SidebarStateView;

    open spec fn deep_view(&self) -> SidebarStateView {
        SidebarStateView {
            width: self.width,
            filter: self.filter@,
            filtered: self.filtered.deep_view(),
        }
    }
}

/// What part of the conversation is shown.
pub struct ScrollState {
    /// How far from the bottom.
    pub offset: usize,
    /// Saved offsets and focused messages by conversation.
    pub positions: StrMap<(usize, Option<usize>)>,
    /// The time of the message at the scroll cursor.
    pub focused_time: Option<i64>,
    /// The focused message.
    pub focused_index: Option<usize>,
    /// Offsets and focused messages to jump back to.
    pub jump_stack: Vec<(usize, Option<usize>)>,
}

/// What a [`ScrollState`] stands for.
pub struct ScrollStateView {
    pub offset: usize,
    pub positions: Seq<(Seq<char>, (usize, Option<usize>))>,
    pub focused_time: Option<i64>,
    pub focused_index: Option<usize>,
    pub jump_stack: Seq<(usize, Option<usize>)>,
}

impl DeepView for ScrollState {
    type V = ScrollStateView;

    open spec fn deep_view(&self) -> ScrollStateView {
        ScrollStateView {
            offset: self.offset,
            positions: self.positions.deep_view(),
            focused_time: self.focused_time,
            focused_index: self.focused_index,
            jump_stack: self.jump_stack.deep_view(),
        }
    }
}

/// Who is typing.
pub struct TypingState {
    /// Who types in a conversation, and since when.
    pub indicators: StrMap<(String, u64)>,
    /// When a key was last pressed in the input.
    pub last_keypress: Option<u64>,
}

/// What a [`TypingState`] stands for.
pub struct TypingStateView {
    pub indicators: Seq<(Seq<char>, (Seq<char>, u64))>,
    pub last_keypress: Option<u64>,
}

impl DeepView for TypingState {
    type V = TypingStateView;

    open spec fn deep_view(&self) -> TypingStateView {
        TypingStateView {
            indicators: self.indicators.deep_view(),
            last_keypress: self.last_keypress,
        }
    }
}

/// What the input can be completed to.
pub struct AutocompleteState {
    /// Places in the list of commands.
    pub command_candidates: Vec<usize>,
    /// The selected candidate.
    pub index: usize,
    pub mode: AutocompleteMode,
    /// Number, name and uuid.
    pub mention_candidates: Vec<(String, String, Option<String>)>,
    /// What is shown and what is inserted.
    pub join_candidates: Vec<(String, String)>,
    /// The byte offset of the `@` in the input.
    pub mention_trigger_pos: usize,
    /// Name and uuid of the mentions completed so far.
    pub pending_mentions: Vec<(String, Option<String>)>,
}

/// What a [`AutocompleteState`] stands for.
pub struct AutocompleteStateView {
    pub command_candidates: Seq<usize>,
    pub index: usize,
    pub mode: AutocompleteMode,
    pub mention_candidates: Seq<(Seq<char>, Seq<char>, Option<Seq<char>>)>,
    pub join_candidates: Seq<(Seq<char>, Seq<char>)>,
    pub mention_trigger_pos: usize,
    pub pending_mentions: Seq<(Seq<char>, Option<Seq<char>>)>,
}

impl DeepView for AutocompleteState {
    type V = AutocompleteStateView;

    open spec fn deep_view(&self) -> AutocompleteStateView {
        AutocompleteStateView {
            command_candidates: self.command_candidates.deep_view(),
            index: self.index,
            mode: self.mode,
            mention_candidates: self.mention_candidates.deep_view(),
            join_candidates: self.join_candidates.deep_view(),
            mention_trigger_pos: self.mention_trigger_pos,
            pending_mentions: self.pending_mentions.deep_view(),
        }
    }
}

/// The contact list.
pub struct ContactsOverlayState {
    pub index: usize,
    pub filter: String,
    /// Number and name.
    pub filtered: Vec<(String, String)>,
}

/// What a [`ContactsOverlayState`] stands for.
pub struct ContactsOverlayStateView {
    pub index: usize,
    pub filter: Seq<char>,
    pub filtered: Seq<(Seq<char>, Seq<char>)>,
}

impl DeepView for ContactsOverlayState {
    type V = ContactsOverlayStateView;

    open spec fn deep_view(&self) -> ContactsOverlayStateView {
        ContactsOverlayStateView {
            index: self.index,
            filter: self.filter@,
            filtered: self.filtered.deep_view(),
        }
    }
}

/// The identities to be verified.
pub struct VerifyOverlayState {
    pub index: usize,
    pub identities: Vec<IdentityInfo>,
}

/// What a [`VerifyOverlayState`] stands for.
pub struct VerifyOverlayStateView {
    pub index: usize,
    pub identities: Seq<IdentityInfoView>,
}

impl DeepView for VerifyOverlayState {
    type V = VerifyOverlayStateView;

    open spec fn deep_view(&self) -> VerifyOverlayStateView {
        VerifyOverlayStateView {
            index: self.index,
            identities: self.identities.deep_view(),
        }
    }
}

/// The picker of where to forward a message.
pub struct ForwardOverlayState {
    pub index: usize,
    pub filter: String,
    /// Conversation id and name.
    pub filtered: Vec<(String, String)>,
    /// What is forwarded.
    pub body: String,
}

/// What a [`ForwardOverlayState`] stands for.
pub struct ForwardOverlayStateView {
    pub index: usize,
    pub filter: Seq<char>,
    pub filtered: Seq<(Seq<char>, Seq<char>)>,
    pub body: Seq<char>,
}

impl DeepView for ForwardOverlayState {
    type V = ForwardOverlayStateView;

    open spec fn deep_view(&self) -> ForwardOverlayStateView {
        ForwardOverlayStateView {
            index: self.index,
            filter: self.filter@,
            filtered: self.filtered.deep_view(),
            body: self.body@,
        }
    }
}

/// The group menu.
pub struct GroupMenuOverlayState {
    /// Which part is open.
    pub state: Option<GroupMenuState>,
    pub index: usize,
    pub filter: String,
    /// Number and name.
    pub filtered: Vec<(String, String)>,
    /// The name that is being edited.
    pub input: String,
}

/// What a [`GroupMenuOverlayState`] stands for.
pub struct GroupMenuOverlayStateView {
    pub state: Option<GroupMenuState>,
    pub index: usize,
    pub filter: Seq<char>,
    pub filtered: Seq<(Seq<char>, Seq<char>)>,
    pub input: Seq<char>,
}

impl DeepView for GroupMenuOverlayState {
    type V = GroupMenuOverlayStateView;

    open spec fn deep_view(&self) -> GroupMenuOverlayStateView {
        GroupMenuOverlayStateView {
            state: self.state,
            index: self.index,
            filter: self.filter@,
            filtered: self.filtered.deep_view(),
            input: self.input@,
        }
    }
}

/// The menu of what can be done with a message.
pub struct ActionMenuState {
    pub index: usize,
}

/// What a [`ActionMenuState`] stands for.
pub struct ActionMenuStateView {
    pub index: usize,
}

impl DeepView for ActionMenuState {
    type V = ActionMenuStateView;

    open spec fn deep_view(&self) -> ActionMenuStateView {
        ActionMenuStateView {
            index: self.index,
        }
    }
}

/// A colour theme.
pub struct Theme {
    pub name: String,
}

/// What a [`Theme`] stands for.
pub struct ThemeView {
    pub name: Seq<char>,
}

impl DeepView for Theme {
    type V = ThemeView;

    open spec fn deep_view(&self) -> ThemeView {
        ThemeView {
            name: self.name@,
        }
    }
}

impl Duplicate for Theme {
    fn duplicate(&self) -> (r: Theme) {
        Theme {
            name: self.name.clone(),
        }
    }
}

impl Clone for Theme {
    fn clone(&self) -> (r: Theme)
        ensures
            r.deep_view() == self.deep_view(),
    {
        self.duplicate()
    }
}

/// The picker of themes.
pub struct ThemePickerState {
    pub index: usize,
    pub available_themes: Vec<Theme>,
}

/// What a [`ThemePickerState`] stands for.
pub struct ThemePickerStateView {
    pub index: usize,
    pub available_themes: Seq<ThemeView>,
}

impl DeepView for ThemePickerState {
    type V = ThemePickerStateView;

    open spec fn deep_view(&self) -> ThemePickerStateView {
        ThemePickerStateView {
            index: self.index,
            available_themes: self.available_themes.deep_view(),
        }
    }
}

/// The list of key bindings.
pub struct KeybindingsOverlayState {
    pub index: usize,
    /// The action that lost its key, and the key.
    pub conflict: Option<(KeyAction, KeyCombo)>,
    pub profile_index: usize,
    pub available_profiles: Vec<String>,
}

/// What a [`KeybindingsOverlayState`] stands for.
pub struct KeybindingsOverlayStateView {
    pub index: usize,
    pub conflict: Option<(KeyAction, KeyCombo)>,
    pub profile_index: usize,
    pub available_profiles: Seq<Seq<char>>,
}

impl DeepView for KeybindingsOverlayState {
    type V = KeybindingsOverlayStateView;

    open spec fn deep_view(&self) -> KeybindingsOverlayStateView {
        KeybindingsOverlayStateView {
            index: self.index,
            conflict: self.conflict.deep_view(),
            profile_index: self.profile_index,
            available_profiles: self.available_profiles.deep_view(),
        }
    }
}

/// Which message is to be pinned.
pub struct PinPending {
    pub conv_id: String,
    pub is_group: bool,
    pub target_author: String,
    pub target_timestamp: i64,
}

/// What a [`PinPending`] stands for.
pub struct PinPendingView {
    pub conv_id: Seq<char>,
    pub is_group: bool,
    pub target_author: Seq<char>,
    pub target_timestamp: i64,
}

impl DeepView for PinPending {
    type V = PinPendingView;

    open spec fn deep_view(&self) -> PinPendingView {
        PinPendingView {
            conv_id: self.conv_id@,
            is_group: self.is_group,
            target_author: self.target_author@,
            target_timestamp: self.target_timestamp,
        }
    }
}

impl Duplicate for PinPending {
    fn duplicate(&self) -> (r: PinPending) {
        PinPending {
            conv_id: self.conv_id.clone(),
            is_group: self.is_group,
            target_author: self.target_author.clone(),
            target_timestamp: self.target_timestamp,
        }
    }
}

impl Clone for PinPending {
    fn clone(&self) -> (r: PinPending)
        ensures
            r.deep_view() == self.deep_view(),
    {
        self.duplicate()
    }
}

/// The picker of how long to pin.
pub struct PinDurationOverlayState {
    pub index: usize,
    pub pending: Option<PinPending>,
}

/// What a [`PinDurationOverlayState`] stands for.
pub struct PinDurationOverlayStateView {
    pub index: usize,
    pub pending: Option<PinPendingView>,
}

impl DeepView for PinDurationOverlayState {
    type V = PinDurationOverlayStateView;

    open spec fn deep_view(&self) -> PinDurationOverlayStateView {
        PinDurationOverlayStateView {
            index: self.index,
            pending: self.pending.deep_view(),
        }
    }
}

/// Which poll is voted in.
pub struct PollVotePending {
    pub conv_id: String,
    pub is_group: bool,
    pub poll_author: String,
    pub poll_timestamp: i64,
    pub allow_multiple: bool,
    pub options: Vec<PollOption>,
}

/// What a [`PollVotePending`] stands for.
pub struct PollVotePendingView {
    pub conv_id: Seq<char>,
    pub is_group: bool,
    pub poll_author: Seq<char>,
    pub poll_timestamp: i64,
    pub allow_multiple: bool,
    pub options: Seq<PollOptionView>,
}

impl DeepView for PollVotePending {
    type V = PollVotePendingView;

    open spec fn deep_view(&self) -> PollVotePendingView {
        PollVotePendingView {
            conv_id: self.conv_id@,
            is_group: self.is_group,
            poll_author: self.poll_author@,
            poll_timestamp: self.poll_timestamp,
            allow_multiple: self.allow_multiple,
            options: self.options.deep_view(),
        }
    }
}

impl Duplicate for PollVotePending {
    fn duplicate(&self) -> (r: PollVotePending) {
        PollVotePending {
            conv_id: self.conv_id.clone(),
            is_group: self.is_group,
            poll_author: self.poll_author.clone(),
            poll_timestamp: self.poll_timestamp,
            allow_multiple: self.allow_multiple,
            options: self.options.duplicate(),
        }
    }
}

impl Clone for PollVotePending {
    fn clone(&self) -> (r: PollVotePending)
        ensures
            r.deep_view() == self.deep_view(),
    {
        self.duplicate()
    }
}

/// A poll whose message has not come yet.
pub struct PendingPoll {
    pub conv_id: String,
    pub timestamp_ms: i64,
    pub poll: PollData,
}

/// What a [`PendingPoll`] stands for.
pub struct PendingPollView {
    pub conv_id: Seq<char>,
    pub timestamp_ms: i64,
    pub poll: PollDataView,
}

impl DeepView for PendingPoll {
    type V = PendingPollView;

    open spec fn deep_view(&self) -> PendingPollView {
        PendingPollView {
            conv_id: self.conv_id@,
            timestamp_ms: self.timestamp_ms,
            poll: self.poll.deep_view(),
        }
    }
}

impl Duplicate for PendingPoll {
    fn duplicate(&self) -> (r: PendingPoll) {
        PendingPoll {
            conv_id: self.conv_id.clone(),
            timestamp_ms: self.timestamp_ms,
            poll: self.poll.duplicate(),
        }
    }
}

impl Clone for PendingPoll {
    fn clone(&self) -> (r: PendingPoll)
        ensures
            r.deep_view() == self.deep_view(),
    {
        self.duplicate()
    }
}

/// The options of a poll, and polls that wait for their message.
pub struct PollVoteOverlayState {
    pub index: usize,
    pub selections: Vec<bool>,
    pub pending: Option<PollVotePending>,
    pub pending_polls: Vec<PendingPoll>,
}

/// What a [`PollVoteOverlayState`] stands for.
pub struct PollVoteOverlayStateView {
    pub index: usize,
    pub selections: Seq<bool>,
    pub pending: Option<PollVotePendingView>,
    pub pending_polls: Seq<PendingPollView>,
}

impl DeepView for PollVoteOverlayState {
    type V = PollVoteOverlayStateView;

    open spec fn deep_view(&self) -> PollVoteOverlayStateView {
        PollVoteOverlayStateView {
            index: self.index,
            selections: self.selections.deep_view(),
            pending: self.pending.deep_view(),
            pending_polls: self.pending_polls.deep_view(),
        }
    }
}

/// The editor of one's own profile.
pub struct ProfileOverlayState {
    pub index: usize,
    /// Given name, family name, about text and about emoji.
    pub fields: Vec<String>,
    pub edit_buffer: String,
}

/// What a [`ProfileOverlayState`] stands for.
pub struct ProfileOverlayStateView {
    pub index: usize,
    pub fields: Seq<Seq<char>>,
    pub edit_buffer: Seq<char>,
}

impl DeepView for ProfileOverlayState {
    type V = ProfileOverlayStateView;

    open spec fn deep_view(&self) -> ProfileOverlayStateView {
        ProfileOverlayStateView {
            index: self.index,
            fields: self.fields.deep_view(),
            edit_buffer: self.edit_buffer@,
        }
    }
}

/// The manager of settings profiles.
pub struct SettingsProfileOverlayState {
    /// The profile in use.
    pub name: String,
    pub index: usize,
    pub available: Vec<SettingsProfile>,
    pub save_as_input: String,
}

/// What a [`SettingsProfileOverlayState`] stands for.
pub struct SettingsProfileOverlayStateView {
    pub name: Seq<char>,
    pub index: usize,
    pub available: Seq<SettingsProfileView>,
    pub save_as_input: Seq<char>,
}

impl DeepView for SettingsProfileOverlayState {
    type V = SettingsProfileOverlayStateView;

    open spec fn deep_view(&self) -> SettingsProfileOverlayStateView {
        SettingsProfileOverlayStateView {
            name: self.name@,
            index: self.index,
            available: self.available.deep_view(),
            save_as_input: self.save_as_input@,
        }
    }
}

/// The picker of a file to attach.
pub struct FilePickerState {
    /// Where it opens.
    pub home: String,
    pub dir: String,
    /// Name, whether it is a directory, and size.
    pub entries: Vec<(String, bool, u64)>,
    pub index: usize,
    pub filter: String,
    /// Places in the entries.
    pub filtered: Vec<usize>,
    pub error: Option<String>,
}

/// What a [`FilePickerState`] stands for.
pub struct FilePickerStateView {
    pub home: Seq<char>,
    pub dir: Seq<char>,
    pub entries: Seq<(Seq<char>, bool, u64)>,
    pub index: usize,
    pub filter: Seq<char>,
    pub filtered: Seq<usize>,
    pub error: Option<Seq<char>>,
}

impl DeepView for FilePickerState {
    type V = FilePickerStateView;

    open spec fn deep_view(&self) -> FilePickerStateView {
        FilePickerStateView {
            home: self.home@,
            dir: self.dir@,
            entries: self.entries.deep_view(),
            index: self.index,
            filter: self.filter@,
            filtered: self.filtered.deep_view(),
            error: self.error.deep_view(),
        }
    }
}

/// A message that was found.
pub struct SearchResult {
    pub sender: String,
    pub body: String,
    pub timestamp_ms: i64,
    pub conv_id: String,
    pub conv_name: String,
}

/// What a [`SearchResult`] stands for.
pub struct SearchResultView {
    pub sender: Seq<char>,
    pub body: Seq<char>,
    pub timestamp_ms: i64,
    pub conv_id: Seq<char>,
    pub conv_name: Seq<char>,
}

impl DeepView for SearchResult {
    type V = SearchResultView;

    open spec fn deep_view(&self) -> SearchResultView {
        SearchResultView {
            sender: self.sender@,
            body: self.body@,
            timestamp_ms: self.timestamp_ms,
            conv_id: self.conv_id@,
            conv_name: self.conv_name@,
        }
    }
}

impl Duplicate for SearchResult {
    fn duplicate(&self) -> (r: SearchResult) {
        SearchResult {
            sender: self.sender.clone(),
            body: self.body.clone(),
            timestamp_ms: self.timestamp_ms,
            conv_id: self.conv_id.clone(),
            conv_name: self.conv_name.clone(),
        }
    }
}

impl Clone for SearchResult {
    fn clone(&self) -> (r: SearchResult)
        ensures
            r.deep_view() == self.deep_view(),
    {
        self.duplicate()
    }
}

/// The search for messages.
pub struct SearchState {
    pub query: String,
    pub results: Vec<SearchResult>,
    pub index: usize,
}

/// What a [`SearchState`] stands for.
pub struct SearchStateView {
    pub query: Seq<char>,
    pub results: Seq<SearchResultView>,
    pub index: usize,
}

impl DeepView for SearchState {
    type V = SearchStateView;

    open spec fn deep_view(&self) -> SearchStateView {
        SearchStateView {
            query: self.query@,
            results: self.results.deep_view(),
            index: self.index,
        }
    }
}

/// An emoji.
pub struct EmojiEntry {
    pub emoji: String,
    pub shortcode: Option<String>,
    pub name: String,
}

/// What a [`EmojiEntry`] stands for.
pub struct EmojiEntryView {
    pub emoji: Seq<char>,
    pub shortcode: Option<Seq<char>>,
    pub name: Seq<char>,
}

impl DeepView for EmojiEntry {
    type V = EmojiEntryView;

    open spec fn deep_view(&self) -> EmojiEntryView {
        EmojiEntryView {
            emoji: self.emoji@,
            shortcode: self.shortcode.deep_view(),
            name: self.name@,
        }
    }
}

impl Duplicate for EmojiEntry {
    fn duplicate(&self) -> (r: EmojiEntry) {
        EmojiEntry {
            emoji: self.emoji.clone(),
            shortcode: self.shortcode.duplicate(),
            name: self.name.clone(),
        }
    }
}

impl Clone for EmojiEntry {
    fn clone(&self) -> (r: EmojiEntry)
        ensures
            r.deep_view() == self.deep_view(),
    {
        self.duplicate()
    }
}

/// The emoji picker.
pub struct EmojiPickerState {
    pub source: EmojiPickerSource,
    pub filter: String,
    pub selected_index: usize,
    pub category_index: usize,
    pub filtered: Vec<EmojiEntry>,
    /// How many emoji stand in a row.
    pub cols: usize,
}

/// What a [`EmojiPickerState`] stands for.
pub struct EmojiPickerStateView {
    pub source: EmojiPickerSource,
    pub filter: Seq<char>,
    pub selected_index: usize,
    pub category_index: usize,
    pub filtered: Seq<EmojiEntryView>,
    pub cols: usize,
}

impl DeepView for EmojiPickerState {
    type V = EmojiPickerStateView;

    open spec fn deep_view(&self) -> EmojiPickerStateView {
        EmojiPickerStateView {
            source: self.source,
            filter: self.filter@,
            selected_index: self.selected_index,
            category_index: self.category_index,
            filtered: self.filtered.deep_view(),
            cols: self.cols,
        }
    }
}

/// Where a link stands on the screen.
pub struct LinkRegion {
    pub x: u16,
    pub y: u16,
    pub width: u16,
    pub url: String,
}

/// What a [`LinkRegion`] stands for.
pub struct LinkRegionView {
    pub x: u16,
    pub y: u16,
    pub width: u16,
    pub url: Seq<char>,
}

impl DeepView for LinkRegion {
    type V = LinkRegionView;

    open spec fn deep_view(&self) -> LinkRegionView {
        LinkRegionView {
            x: self.x,
            y: self.y,
            width: self.width,
            url: self.url@,
        }
    }
}

impl Duplicate for LinkRegion {
    fn duplicate(&self) -> (r: LinkRegion) {
        LinkRegion {
            x: self.x,
            y: self.y,
            width: self.width,
            url: self.url.clone(),
        }
    }
}

impl Clone for LinkRegion {
    fn clone(&self) -> (r: LinkRegion)
        ensures
            r.deep_view() == self.deep_view(),
    {
        self.duplicate()
    }
}

/// An image on the screen.
pub struct VisibleImage {
    pub x: u16,
    pub y: u16,
    pub width: u16,
    pub height: u16,
    /// The height before it is clipped.
    pub full_height: u16,
    /// How many cells are cut off at the top.
    pub crop_top: u16,
    pub path: String,
}

/// What a [`VisibleImage`] stands for.
pub struct VisibleImageView {
    pub x: u16,
    pub y: u16,
    pub width: u16,
    pub height: u16,
    pub full_height: u16,
    pub crop_top: u16,
    pub path: Seq<char>,
}

impl DeepView for VisibleImage {
    type V = VisibleImageView;

    open spec fn deep_view(&self) -> VisibleImageView {
        VisibleImageView {
            x: self.x,
            y: self.y,
            width: self.width,
            height: self.height,
            full_height: self.full_height,
            crop_top: self.crop_top,
            path: self.path@,
        }
    }
}

impl Duplicate for VisibleImage {
    fn duplicate(&self) -> (r: VisibleImage) {
        VisibleImage {
            x: self.x,
            y: self.y,
            width: self.width,
            height: self.height,
            full_height: self.full_height,
            crop_top: self.crop_top,
            path: self.path.clone(),
        }
    }
}

impl Clone for VisibleImage {
    fn clone(&self) -> (r: VisibleImage)
        ensures
            r.deep_view() == self.deep_view(),
    {
        self.duplicate()
    }
}

/// The images of the conversation.
pub struct ImageState {
    pub protocol: ImageProtocol,
    pub visible: Vec<VisibleImage>,
    pub prev_visible: Vec<VisibleImage>,
    pub prev_active_conversation: Option<String>,
    /// Encoded images by path, with their size in pixels.
    pub native_cache: StrMap<(String, u32, u32)>,
    /// Encoded parts of images: path, rows cut off, height, data.
    pub crop_cache: Vec<(String, u16, u16, String)>,
    pub next_kitty_id: u32,
    pub kitty_ids: StrMap<u32>,
    pub kitty_transmitted: Vec<u32>,
    pub kitty_pending: Vec<(u32, String, u16, u16)>,
    /// Images being drawn: conversation, time, and whether it is a preview.
    pub in_flight: Vec<(String, i64, bool)>,
}

/// What a [`ImageState`] stands for.
pub struct ImageStateView {
    pub protocol: ImageProtocol,
    pub visible: Seq<VisibleImageView>,
    pub prev_visible: Seq<VisibleImageView>,
    pub prev_active_conversation: Option<Seq<char>>,
    pub native_cache: Seq<(Seq<char>, (Seq<char>, u32, u32))>,
    pub crop_cache: Seq<(Seq<char>, u16, u16, Seq<char>)>,
    pub next_kitty_id: u32,
    pub kitty_ids: Seq<(Seq<char>, u32)>,
    pub kitty_transmitted: Seq<u32>,
    pub kitty_pending: Seq<(u32, Seq<char>, u16, u16)>,
    pub in_flight: Seq<(Seq<char>, i64, bool)>,
}

impl DeepView for ImageState {
    type V = ImageStateView;

    open spec fn deep_view(&self) -> ImageStateView {
        ImageStateView {
            protocol: self.protocol,
            visible: self.visible.deep_view(),
            prev_visible: self.prev_visible.deep_view(),
            prev_active_conversation: self.prev_active_conversation.deep_view(),
            native_cache: self.native_cache.deep_view(),
            crop_cache: self.crop_cache.deep_view(),
            next_kitty_id: self.next_kitty_id,
            kitty_ids: self.kitty_ids.deep_view(),
            kitty_transmitted: self.kitty_transmitted.deep_view(),
            kitty_pending: self.kitty_pending.deep_view(),
            in_flight: self.in_flight.deep_view(),
        }
    }
}

/// What waits for an answer or for the main loop.
pub struct PendingState {
    /// Conversation and local time of messages being sent, by request.
    pub sends: StrMap<(String, i64)>,
    /// Receipts that came before their message: sender, type, times.
    pub receipts: Vec<(String, String, Vec<i64>)>,
    /// Read receipts to be sent.
    pub read_receipts: Vec<(String, Vec<i64>)>,
    /// Tells that one has stopped typing.
    pub typing_stop: Option<SendRequest>,
    /// The file that goes with the next message.
    pub attachment: Option<String>,
    /// Where pasted images are put.
    pub paste_temp_path: String,
    /// Files to be removed, and when, by request.
    pub paste_cleanups: StrMap<(String, u64)>,
}

/// What a [`PendingState`] stands for.
pub struct PendingStateView {
    pub sends: Seq<(Seq<char>, (Seq<char>, i64))>,
    pub receipts: Seq<(Seq<char>, Seq<char>, Seq<i64>)>,
    pub read_receipts: Seq<(Seq<char>, Seq<i64>)>,
    pub typing_stop: Option<SendRequestView>,
    pub attachment: Option<Seq<char>>,
    pub paste_temp_path: Seq<char>,
    pub paste_cleanups: Seq<(Seq<char>, (Seq<char>, u64))>,
}

impl DeepView for PendingState {
    type V = PendingStateView;

    open spec fn deep_view(&self) -> PendingStateView {
        PendingStateView {
            sends: self.sends.deep_view(),
            receipts: self.receipts.deep_view(),
            read_receipts: self.read_receipts.deep_view(),
            typing_stop: self.typing_stop.deep_view(),
            attachment: self.attachment.deep_view(),
            paste_temp_path: self.paste_temp_path@,
            paste_cleanups: self.paste_cleanups.deep_view(),
        }
    }
}

/// The state of the client.
pub struct App {
    pub store: ConversationStore,
    pub active_conversation: Option<String>,
    pub input: InputState,
    pub mode: InputMode,
    pub sidebar: SidebarState,
    pub scroll: ScrollState,
    pub status_message: String,
    pub flags: KindSet<Flag>,
    /// One's own number.
    pub account: String,
    pub startup_status: String,
    pub connection_error: Option<String>,
    pub typing: TypingState,
    pub settings: KindSet<Setting>,
    pub settings_index: usize,
    /// How much a notification tells: full, sender or minimal.
    pub notification_preview: String,
    /// When a copied message is taken out of the clipboard; 0 for never.
    pub clipboard_clear_seconds: u64,
    pub clipboard_set_at: Option<u64>,
    pub muted: StrSet,
    /// When conversations that are muted for a while are no more so.
    pub mute_ends: StrMap<i64>,
    pub blocked: StrSet,
    pub overlays: KindSet<Overlay>,
    pub autocomplete: AutocompleteState,
    pub contacts: ContactsOverlayState,
    pub verify: VerifyOverlayState,
    pub identity_trust: StrMap<TrustLevel>,
    pub forward: ForwardOverlayState,
    pub group_menu: GroupMenuOverlayState,
    pub action_menu: ActionMenuState,
    pub reaction_index: usize,
    pub theme: Theme,
    pub theme_picker: ThemePickerState,
    pub keybindings: KeyBindings,
    pub keybindings_overlay: KeybindingsOverlayState,
    pub pin: PinDurationOverlayState,
    pub poll: PollVoteOverlayState,
    pub profile: ProfileOverlayState,
    pub settings_profiles: SettingsProfileOverlayState,
    pub file_picker: FilePickerState,
    pub search: SearchState,
    pub emoji_picker: EmojiPickerState,
    pub mouse: MouseState,
    pub link_regions: Vec<LinkRegion>,
    pub images: ImageState,
    pub pending: PendingState,
    /// Author, text and time of the message that is replied to.
    pub reply_target: Option<(String, String, i64)>,
    /// Time and conversation of the message that is edited.
    pub editing_message: Option<(i64, String)>,
    /// How many messages in memory will disappear.
    pub expiring_msg_count: usize,
    /// Changes to be made in the database.
    pub jobs: Vec<DbJob>,
    /// What is to be done outside.
    pub effects: Vec<Effect>,
}

/// What a [`App`] stands for.
pub struct AppView {
    pub store: ConversationStoreView,
    pub active_conversation: Option<Seq<char>>,
    pub input: InputStateView,
    pub mode: InputMode,
    pub sidebar: SidebarStateView,
    pub scroll: ScrollStateView,
    pub status_message: Seq<char>,
    pub flags: Set<Flag>,
    pub account: Seq<char>,
    pub startup_status: Seq<char>,
    pub connection_error: Option<Seq<char>>,
    pub typing: TypingStateView,
    pub settings: Set<Setting>,
    pub settings_index: usize,
    pub notification_preview: Seq<char>,
    pub clipboard_clear_seconds: u64,
    pub clipboard_set_at: Option<u64>,
    pub muted: Set<Seq<char>>,
    pub mute_ends: Seq<(Seq<char>, i64)>,
    pub blocked: Set<Seq<char>>,
    pub overlays: Set<Overlay>,
    pub autocomplete: AutocompleteStateView,
    pub contacts: ContactsOverlayStateView,
    pub verify: VerifyOverlayStateView,
    pub identity_trust: Seq<(Seq<char>, TrustLevel)>,
    pub forward: ForwardOverlayStateView,
    pub group_menu: GroupMenuOverlayStateView,
    pub action_menu: ActionMenuStateView,
    pub reaction_index: usize,
    pub theme: ThemeView,
    pub theme_picker: ThemePickerStateView,
    pub keybindings: KeyBindingsView,
    pub keybindings_overlay: KeybindingsOverlayStateView,
    pub pin: PinDurationOverlayStateView,
    pub poll: PollVoteOverlayStateView,
    pub profile: ProfileOverlayStateView,
    pub settings_profiles: SettingsProfileOverlayStateView,
    pub file_picker: FilePickerStateView,
    pub search: SearchStateView,
    pub emoji_picker: EmojiPickerStateView,
    pub mouse: MouseState,
    pub link_regions: Seq<LinkRegionView>,
    pub images: ImageStateView,
    pub pending: PendingStateView,
    pub reply_target: Option<(Seq<char>, Seq<char>, i64)>,
    pub editing_message: Option<(i64, Seq<char>)>,
    pub expiring_msg_count: usize,
    pub jobs: Seq<DbJobView>,
    pub effects: Seq<EffectView>,
}

impl App {
    /// What the state of the client stands for.
    #[verifier::opaque]
    pub open spec fn state(&self) -> AppView {
        AppView {
            store: self.store.deep_view(),
            active_conversation: self.active_conversation.deep_view(),
            input: self.input.deep_view(),
            mode: self.mode,
            sidebar: self.sidebar.deep_view(),
            scroll: self.scroll.deep_view(),
            status_message: self.status_message@,
            flags: self.flags.deep_view(),
            account: self.account@,
            startup_status: self.startup_status@,
            connection_error: self.connection_error.deep_view(),
            typing: self.typing.deep_view(),
            settings: self.settings.deep_view(),
            settings_index: self.settings_index,
            notification_preview: self.notification_preview@,
            clipboard_clear_seconds: self.clipboard_clear_seconds,
            clipboard_set_at: self.clipboard_set_at,
            muted: self.muted.deep_view(),
            mute_ends: self.mute_ends.deep_view(),
            blocked: self.blocked.deep_view(),
            overlays: self.overlays.deep_view(),
            autocomplete: self.autocomplete.deep_view(),
            contacts: self.contacts.deep_view(),
            verify: self.verify.deep_view(),
            identity_trust: self.identity_trust.deep_view(),
            forward: self.forward.deep_view(),
            group_menu: self.group_menu.deep_view(),
            action_menu: self.action_menu.deep_view(),
            reaction_index: self.reaction_index,
            theme: self.theme.deep_view(),
            theme_picker: self.theme_picker.deep_view(),
            keybindings: self.keybindings.deep_view(),
            keybindings_overlay: self.keybindings_overlay.deep_view(),
            pin: self.pin.deep_view(),
            poll: self.poll.deep_view(),
            profile: self.profile.deep_view(),
            settings_profiles: self.settings_profiles.deep_view(),
            file_picker: self.file_picker.deep_view(),
            search: self.search.deep_view(),
            emoji_picker: self.emoji_picker.deep_view(),
            mouse: self.mouse,
            link_regions: self.link_regions.deep_view(),
            images: self.images.deep_view(),
            pending: self.pending.deep_view(),
            reply_target: self.reply_target.deep_view(),
            editing_message: self.editing_message.deep_view(),
            expiring_msg_count: self.expiring_msg_count,
            jobs: self.jobs.deep_view(),
            effects: self.effects.deep_view(),
        }
    }
}

} // verus!
