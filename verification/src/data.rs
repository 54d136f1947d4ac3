//! What the app stores of a store and records of its widget, and the names
//! these are stored under.

use vstd::prelude::*;
use vstd::string::StringExecFns;
use vstd::utf8::is_char_boundary;
use vstd::string::StringSliceAdditionalSpecFns;
use crate::bigcommerce::Script;
use crate::text::same_text;

verus! {

/// Whether the widget of a store is published.
#[derive(Clone, Debug, PartialEq, Eq)]
pub struct StoreStatus {
    pub published: bool,
}

/// How the widget of a store looks and what it says.
#[derive(Clone, Debug, PartialEq, Eq)]
pub struct WidgetConfiguration {
    pub style: String,
    pub placement: String,
    pub charity_selections: Vec<String>,
    pub modal_title: String,
    pub modal_body: String,
}

/// A charity that the widget links to.
#[derive(Clone, Copy, Debug, PartialEq, Eq, Structural)]
pub enum Charity {
    Unicef,
    NewUkraine,
    Razom,
    MiraAction,
}

/// What a visitor did with the widget.
#[derive(Clone, Copy, Debug, PartialEq, Eq, Structural)]
pub enum WidgetEventType {
    WidgetOpened,
    WidgetCollapsed,
    WidgetClosed,
    ModalOpened,
    ModalClosed,
}

/// What a visitor did with the link to a charity.
#[derive(Clone, Copy, Debug, PartialEq, Eq, Structural)]
pub enum CharityEventType {
    SupportClicked,
    SeeMoreClicked,
}

/// What a visitor did with the configurator for any storefront.
#[derive(Clone, Copy, Debug, PartialEq, Eq, Structural)]
pub enum UniversalConfiguratorEventType {
    GenerateCode,
    CopyCode,
}

/// A visitor of a store did something with the link to a charity.
#[derive(Clone, Debug, PartialEq, Eq)]
pub struct CharityEvent {
    pub store_hash: String,
    pub charity: Charity,
    pub event: CharityEventType,
}

/// A visitor of a store did something with the widget.
#[derive(Clone, Debug, PartialEq, Eq)]
pub struct WidgetEvent {
    pub store_hash: String,
    pub event: WidgetEventType,
}

/// A visitor did something with the configurator for any storefront.
#[derive(Clone, Debug, PartialEq, Eq)]
pub struct UniversalConfiguratorEvent {
    pub metadata: Option<String>,
    pub event_type: UniversalConfiguratorEventType,
}

/// The name that stands for every store that is not on the platform.
pub open spec fn universal_store() -> Seq<char> {
    "universal"@
}

/// The hash under which an event is stored: none for an event of the
/// universal widget, else the hash it came with.
pub fn store_hash_field_from_str(store_hash: &str) -> (field: Option<&str>)
    ensures
        store_hash@ == universal_store() ==> field is None,
        store_hash@ != universal_store() ==> field == Some(store_hash),
{
    if same_text(store_hash, "universal") {
        None
    } else {
        Some(store_hash)
    }
}

impl Charity {
    /// The name a charity is stored under.
    pub open spec fn value_text(self) -> Seq<char> {
        match self {
            Charity::Unicef => "unicef"@,
            Charity::NewUkraine => "new-ukraine"@,
            Charity::Razom => "razom"@,
            Charity::MiraAction => "mira-action"@,
        }
    }

    /// The name the charity is stored under.
    pub fn to_value_string(&self) -> (name: String)
        ensures
            name@ == self.value_text(),
    {
        match self {
            Charity::Unicef => "unicef".to_owned(),
            Charity::NewUkraine => "new-ukraine".to_owned(),
            Charity::Razom => "razom".to_owned(),
            Charity::MiraAction => "mira-action".to_owned(),
        }
    }
}

impl WidgetEventType {
    /// The name a widget event is stored under.
    pub open spec fn value_text(self) -> Seq<char> {
        match self {
            WidgetEventType::WidgetOpened => "widget-opened"@,
            WidgetEventType::WidgetCollapsed => "widget-collapsed"@,
            WidgetEventType::WidgetClosed => "widget-closed"@,
            WidgetEventType::ModalOpened => "modal-opened"@,
            WidgetEventType::ModalClosed => "modal-closed"@,
        }
    }

    /// The name the event is stored under.
    pub fn to_value_string(&self) -> (name: String)
        ensures
            name@ == self.value_text(),
    {
        match self {
            WidgetEventType::WidgetOpened => "widget-opened".to_owned(),
            WidgetEventType::WidgetCollapsed => "widget-collapsed".to_owned(),
            WidgetEventType::WidgetClosed => "widget-closed".to_owned(),
            WidgetEventType::ModalOpened => "modal-opened".to_owned(),
            WidgetEventType::ModalClosed => "modal-closed".to_owned(),
        }
    }
}

impl CharityEventType {
    /// The name a charity event is stored under.
    pub open spec fn value_text(self) -> Seq<char> {
        match self {
            CharityEventType::SupportClicked => "support-clicked"@,
            CharityEventType::SeeMoreClicked => "see-more-clicked"@,
        }
    }

    /// The name the event is stored under.
    pub fn to_value_string(&self) -> (name: String)
        ensures
            name@ == self.value_text(),
    {
        match self {
            CharityEventType::SupportClicked => "support-clicked".to_owned(),
            CharityEventType::SeeMoreClicked => "see-more-clicked".to_owned(),
        }
    }
}

impl UniversalConfiguratorEventType {
    /// The name a configurator event is stored under.
    pub open spec fn value_text(self) -> Seq<char> {
        match self {
            UniversalConfiguratorEventType::GenerateCode => "generate-code"@,
            UniversalConfiguratorEventType::CopyCode => "copy-code"@,
        }
    }

    /// The name the event is stored under.
    pub fn to_value_string(&self) -> (name: String)
        ensures
            name@ == self.value_text(),
    {
        match self {
            UniversalConfiguratorEventType::GenerateCode => "generate-code".to_owned(),
            UniversalConfiguratorEventType::CopyCode => "copy-code".to_owned(),
        }
    }
}

/// What is stored of a charity event: the hash of its store, if it has one,
/// and the names of charity and event.
#[derive(Clone, Debug, PartialEq, Eq)]
pub struct CharityEventFields {
    pub store_hash: Option<String>,
    pub charity: String,
    pub event_type: String,
}

/// What is stored of a widget event: the hash of its store, if it has one,
/// and the name of the event.
#[derive(Clone, Debug, PartialEq, Eq)]
pub struct WidgetEventFields {
    pub store_hash: Option<String>,
    pub event_type: String,
}

/// The hash under which an event that came with `store_hash` is stored.
pub open spec fn stored_hash(store_hash: Seq<char>) -> Option<Seq<char>> {
    if store_hash == universal_store() {
        None
    } else {
        Some(store_hash)
    }
}

/// The text of a string, where there is one.
pub open spec fn text_of(value: Option<String>) -> Option<Seq<char>> {
    match value {
        Some(text) => Some(text@),
        None => None,
    }
}

impl CharityEvent {
    /// What is stored of the event.
    pub fn stored_fields(&self) -> (fields: CharityEventFields)
        ensures
            text_of(fields.store_hash) == stored_hash(self.store_hash@),
            fields.charity@ == self.charity.value_text(),
            fields.event_type@ == self.event.value_text(),
    {
        let store_hash = match store_hash_field_from_str(self.store_hash.as_str()) {
            Some(hash) => Some(hash.to_owned()),
            None => None,
        };
        CharityEventFields {
            store_hash,
            charity: self.charity.to_value_string(),
            event_type: self.event.to_value_string(),
        }
    }
}

impl WidgetEvent {
    /// What is stored of the event.
    pub fn stored_fields(&self) -> (fields: WidgetEventFields)
        ensures
            text_of(fields.store_hash) == stored_hash(self.store_hash@),
            fields.event_type@ == self.event.value_text(),
    {
        let store_hash = match store_hash_field_from_str(self.store_hash.as_str()) {
            Some(hash) => Some(hash.to_owned()),
            None => None,
        };
        WidgetEventFields { store_hash, event_type: self.event.to_value_string() }
    }
}

/// The most bytes that are stored of the reason a store gave when it removed
/// the widget.
pub const REASON_LIMIT: usize = 1000;

/// The number of bytes that are stored of a reason of `length` bytes.
pub open spec fn stored_reason_length(length: nat) -> nat {
    if length < REASON_LIMIT {
        length
    } else {
        REASON_LIMIT as nat
    }
}

/// What is stored of the reason a store gave: its first thousand bytes, or
/// all of it where it is shorter. The reason does not have a character that
/// the limit would cut in two.
pub fn stored_reason(reason: &str) -> (stored: &str)
    requires
        is_char_boundary(
            reason.spec_bytes(),
            stored_reason_length(reason.spec_bytes().len()) as int,
        ),
    ensures
        stored.spec_bytes() == reason.spec_bytes().subrange(
            0,
            stored_reason_length(reason.spec_bytes().len()) as int,
        ),
{
    let length = reason.as_bytes().len();
    let end: usize = if length < REASON_LIMIT {
        length
    } else {
        REASON_LIMIT
    };
    let (stored, _) = reason.split_at(end);
    stored
}

/// The name of the script that shows the widget.
pub open spec fn widget_script_name() -> Seq<char> {
    "Stand With Ukraine"@
}

/// What the script that shows the widget is for.
pub open spec fn widget_script_description() -> Seq<char> {
    "This script displays the stand with ukraine widget on your storefront. Configure it from the Stand With Ukraine app installed on your store."@
}

/// The markup that shows the widget of the store `store_hash`: the
/// configuration as JSON with the hash of the store added to it, and the
/// script of the widget from `base_url`.
pub open spec fn widget_script_html(
    configuration_json: Seq<char>,
    store_hash: Seq<char>,
    base_url: Seq<char>,
) -> Seq<char> {
    "<script>window.SWU_CONFIG="@ + configuration_json + ";window.SWU_CONFIG.store_hash=\""@
        + store_hash + "\";</script><script src=\""@ + base_url
        + "/widget/index.js\"></script>"@
}

/// The markup that shows the widget on every storefront alike, laid out on
/// lines of its own: the configuration as JSON, and the script of the widget
/// from `base_url`.
pub open spec fn script_content_text(configuration_json: Seq<char>, base_url: Seq<char>) -> Seq<
    char,
> {
    "\n    <script>window.SWU_CONFIG = "@ + configuration_json
        + ";</script>\n    <script src=\""@ + base_url
        + "/widget/index.js\"></script>\n    "@
}

/// The markup that shows the widget on every storefront alike, for a
/// configuration that is given written as JSON.
pub fn generate_script_content(configuration_json: &str, base_url: &str) -> (content: String)
    ensures
        content@ == script_content_text(configuration_json@, base_url@),
{
    let mut content = "\n    <script>window.SWU_CONFIG = ".to_owned();
    content.append(configuration_json);
    content.append(";</script>\n    <script src=\"");
    content.append(base_url);
    content.append("/widget/index.js\"></script>\n    ");
    content
}

impl WidgetConfiguration {
    /// The script that shows the widget with this configuration, which is
    /// given written as JSON, on the storefront of `store_hash`.
    pub fn generate_script(&self, configuration_json: &str, store_hash: &str, base_url: &str) -> (script:
        Script)
        ensures
            script.name_text() == widget_script_name(),
            script.description_text() == widget_script_description(),
            script.html_text() == widget_script_html(configuration_json@, store_hash@, base_url@),
    {
        let mut html = "<script>window.SWU_CONFIG=".to_owned();
        html.append(configuration_json);
        html.append(";window.SWU_CONFIG.store_hash=\"");
        html.append(store_hash);
        html.append("\";</script><script src=\"");
        html.append(base_url);
        html.append("/widget/index.js\"></script>");
        Script::new(
            "Stand With Ukraine".to_owned(),
            "This script displays the stand with ukraine widget on your storefront. Configure it from the Stand With Ukraine app installed on your store.".to_owned(),
            html,
        )
    }
}

} // verus!
