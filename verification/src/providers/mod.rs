//! The built-in providers: which environment variables each one needs and
//! how its profile form is laid out.

pub mod llamacpp;

use vstd::prelude::*;
use crate::text::str_eq;

pub use llamacpp::PROVIDER_LLAMACPP_SINGLE_MODEL;

verus! {

/// How a value stored inside `CLAUDE_CODE_EXTRA_BODY` is written and read.
#[derive(Debug, Clone, Copy, PartialEq, Eq, Structural)]
pub enum ExtraBodyValueType {
    /// Plain text, stored as a JSON string.
    String,
    /// Comma-separated text, stored as a JSON array of strings.
    StringList,
    /// "true"/"false" text, stored as a JSON boolean.
    Bool,
    /// Integer text such as "128", stored as a JSON number.
    Number,
}

/// The kind of a provider field, which decides how the form shows it.
#[derive(Debug)]
pub enum FieldType {
    Url,
    Secret,
    String,
    /// Stored inside `CLAUDE_CODE_EXTRA_BODY` at a dot-separated JSON path.
    ExtraBody { json_path: &'static str, value_type: ExtraBodyValueType },
    /// Picked from fixed options; the form offers "Custom..." as well.
    Choice { options: Vec<&'static str> },
}

/// One field of a provider's profile form.
#[derive(Debug)]
pub struct ProviderField {
    /// The environment variable the field fills (e.g. `ANTHROPIC_AUTH_TOKEN`).
    pub key: &'static str,
    /// Label shown in forms.
    pub label: &'static str,
    pub field_type: FieldType,
    pub required: bool,
    pub default: Option<&'static str>,
}

/// A named group of a provider's fields, shown as a tab of the form.
#[derive(Debug)]
pub struct ProviderFieldGroup {
    pub label: &'static str,
    /// Indices into the provider's `fields`.
    pub field_indices: Vec<usize>,
}

/// A provider: the environment variables and settings the launched CLI needs
/// to talk to one endpoint.
#[derive(Debug)]
pub struct ProviderDef {
    pub id: &'static str,
    pub name: &'static str,
    pub fields: Vec<ProviderField>,
    pub supports_statusline: bool,
    /// Tabs of the form; `None` shows the fields in one flat form.
    pub groups: Option<Vec<ProviderFieldGroup>>,
}

// ---- Views -----------------------------------------------------------------

pub enum FieldTypeView {
    Url,
    Secret,
    String,
    ExtraBody { json_path: Seq<char>, value_type: ExtraBodyValueType },
    Choice { options: Seq<Seq<char>> },
}

pub struct FieldView {
    pub key: Seq<char>,
    pub label: Seq<char>,
    pub field_type: FieldTypeView,
    pub required: bool,
    pub default: Option<Seq<char>>,
}

pub struct GroupView {
    pub label: Seq<char>,
    pub field_indices: Seq<usize>,
}

pub struct ProviderView {
    pub id: Seq<char>,
    pub name: Seq<char>,
    pub fields: Seq<FieldView>,
    pub supports_statusline: bool,
    pub groups: Option<Seq<GroupView>>,
}

/// An optional string slice, as an optional character sequence.
pub open spec fn opt_str_view(o: Option<&'static str>) -> Option<Seq<char>> {
    match o {
        Some(s) => Some(s@),
        None => None,
    }
}

/// The views of a sequence of string slices.
pub open spec fn strs_view(v: Seq<&'static str>) -> Seq<Seq<char>> {
    v.map_values(|s: &'static str| s@)
}

impl View for FieldType {
    type V = FieldTypeView;

    open spec fn view(&self) -> FieldTypeView {
        match self {
            FieldType::Url => FieldTypeView::Url,
            FieldType::Secret => FieldTypeView::Secret,
            FieldType::String => FieldTypeView::String,
            FieldType::ExtraBody { json_path, value_type } => FieldTypeView::ExtraBody {
                json_path: json_path@,
                value_type: *value_type,
            },
            FieldType::Choice { options } => FieldTypeView::Choice { options: strs_view(options@) },
        }
    }
}

impl View for ProviderField {
    type V = FieldView;

    open spec fn view(&self) -> FieldView {
        FieldView {
            key: self.key@,
            label: self.label@,
            field_type: self.field_type@,
            required: self.required,
            default: opt_str_view(self.default),
        }
    }
}

impl View for ProviderFieldGroup {
    type V = GroupView;

    open spec fn view(&self) -> GroupView {
        GroupView { label: self.label@, field_indices: self.field_indices@ }
    }
}

/// The views of a sequence of fields.
pub open spec fn fields_view(v: Seq<ProviderField>) -> Seq<FieldView> {
    v.map_values(|f: ProviderField| f@)
}

/// The views of a sequence of groups.
pub open spec fn groups_view(v: Seq<ProviderFieldGroup>) -> Seq<GroupView> {
    v.map_values(|g: ProviderFieldGroup| g@)
}

impl View for ProviderDef {
    type V = ProviderView;

    open spec fn view(&self) -> ProviderView {
        ProviderView {
            id: self.id@,
            name: self.name@,
            fields: fields_view(self.fields@),
            supports_statusline: self.supports_statusline,
            groups: match self.groups {
                Some(g) => Some(groups_view(g@)),
                None => None,
            },
        }
    }
}

// ---- Field builders --------------------------------------------------------

impl ProviderField {
    /// A field with the given key, label and type; optional, with no default.
    pub fn field(key: &'static str, label: &'static str, field_type: FieldType) -> (r: Self)
        ensures
            r@ == (FieldView { key: key@, label: label@, field_type: field_type@, required: false, default: None }),
    {
        ProviderField { key, label, field_type, required: false, default: None }
    }

    /// The same field, required.
    pub fn required(self) -> (r: Self)
        ensures
            r@ == (FieldView { required: true, ..self@ }),
    {
        let mut s = self;
        s.required = true;
        s
    }

    /// The same field, optional.
    pub fn optional(self) -> (r: Self)
        ensures
            r@ == (FieldView { required: false, ..self@ }),
    {
        let mut s = self;
        s.required = false;
        s
    }

    /// The same field with `default` prefilled.
    pub fn default(self, default: &'static str) -> (r: Self)
        ensures
            r@ == (FieldView { default: Some(default@), ..self@ }),
    {
        let mut s = self;
        s.default = Some(default);
        s
    }

    /// Whether the field holds a secret (shown masked).
    pub fn is_secret(&self) -> (r: bool)
        ensures
            r == (self.field_type@ is Secret),
    {
        match self.field_type {
            FieldType::Secret => true,
            _ => false,
        }
    }

    /// Whether the field is a pick from fixed options.
    pub fn is_choice(&self) -> (r: bool)
        ensures
            r == (self.field_type@ is Choice),
    {
        match self.field_type {
            FieldType::Choice { .. } => true,
            _ => false,
        }
    }

    /// Whether the field is a yes/no value inside the extra body.
    pub fn is_bool(&self) -> (r: bool)
        ensures
            r == (self.field_type@ matches FieldTypeView::ExtraBody { value_type, .. } && value_type
                == ExtraBodyValueType::Bool),
    {
        match self.field_type {
            FieldType::ExtraBody { value_type: ExtraBodyValueType::Bool, .. } => true,
            _ => false,
        }
    }
}

// ---- Tabs --------------------------------------------------------------------

/// Number of tabs of a provider's form.
pub open spec fn tab_count_spec(p: ProviderView) -> int {
    match p.groups {
        Some(g) => g.len() as int,
        None => 1,
    }
}

/// Field indices shown by tab `tab` (a tab past the last shows the last).
pub open spec fn tab_field_indices_spec(p: ProviderView, tab: int) -> Seq<usize> {
    match p.groups {
        Some(g) => if g.len() == 0 {
            Seq::empty()
        } else {
            g[if tab < g.len() {
                tab
            } else {
                g.len() - 1
            }].field_indices
        },
        None => Seq::new(p.fields.len(), |i: int| i as usize),
    }
}

/// Tab `t` is the first tab whose fields include `field_idx`.
pub open spec fn is_first_tab(p: ProviderView, field_idx: usize, t: int) -> bool {
    p.groups matches Some(g) && 0 <= t < g.len() && g[t].field_indices.contains(field_idx) && forall|u: int|
        0 <= u < t ==> !g[u].field_indices.contains(field_idx)
}

/// No tab holds `field_idx` (or the form has no tabs).
pub open spec fn in_no_tab(p: ProviderView, field_idx: usize) -> bool {
    match p.groups {
        Some(g) => forall|t: int| 0 <= t < g.len() ==> !g[t].field_indices.contains(field_idx),
        None => true,
    }
}

impl ProviderDef {
    /// Number of tabs, or 1 when the provider has no groups.
    pub fn tab_count(&self) -> (r: usize)
        ensures
            r == tab_count_spec(self@),
    {
        match &self.groups {
            Some(g) => g.len(),
            None => 1,
        }
    }

    /// Field indices shown by a tab (clamped to the last tab). Without groups,
    /// every field index, so the form is flat.
    pub fn tab_field_indices(&self, tab: usize) -> (r: Vec<usize>)
        ensures
            r@ == tab_field_indices_spec(self@, tab as int),
    {
        match &self.groups {
            Some(groups) => {
                if groups.len() == 0 {
                    return Vec::new();
                }
                let last = groups.len() - 1;
                let t = if tab < last {
                    tab
                } else {
                    last
                };
                let src = &groups[t].field_indices;
                let mut out: Vec<usize> = Vec::new();
                let mut i: usize = 0;
                while i < src.len()
                    invariant
                        0 <= i <= src@.len(),
                        out@ == src@.take(i as int),
                    decreases src.len() - i,
                {
                    out.push(src[i]);
                    assert(src@.take(i + 1) =~= src@.take(i as int).push(src@[i as int]));
                    i += 1;
                }
                assert(src@.take(src@.len() as int) =~= src@);
                assert(groups_view(groups@)[t as int] == groups@[t as int]@);
                out
            },
            None => {
                let n = self.fields.len();
                let mut out: Vec<usize> = Vec::new();
                let mut i: usize = 0;
                while i < n
                    invariant
                        n == self.fields@.len(),
                        0 <= i <= n,
                        out@ == Seq::new(i as nat, |j: int| j as usize),
                    decreases n - i,
                {
                    out.push(i);
                    assert(out@ =~= Seq::new((i + 1) as nat, |j: int| j as usize));
                    i += 1;
                }
                out
            },
        }
    }

    /// The first group that holds a field index, if any.
    pub fn tab_for_field(&self, field_idx: usize) -> (r: Option<usize>)
        ensures
            match r {
                Some(t) => is_first_tab(self@, field_idx, t as int),
                None => in_no_tab(self@, field_idx),
            },
    {
        match &self.groups {
            Some(groups) => {
                let ghost g = groups_view(groups@);
                let mut t: usize = 0;
                while t < groups.len()
                    invariant
                        g == groups_view(groups@),
                        self@.groups == Some(g),
                        0 <= t <= groups@.len(),
                        forall|u: int| 0 <= u < t ==> !g[u].field_indices.contains(field_idx),
                    decreases groups.len() - t,
                {
                    let idx = &groups[t].field_indices;
                    let mut j: usize = 0;
                    while j < idx.len()
                        invariant
                            g == groups_view(groups@),
                            self@.groups == Some(g),
                            0 <= t < groups@.len(),
                            idx@ == g[t as int].field_indices,
                            forall|u: int| 0 <= u < t ==> !g[u].field_indices.contains(field_idx),
                            0 <= j <= idx@.len(),
                            forall|k: int| 0 <= k < j ==> idx@[k] != field_idx,
                        decreases idx.len() - j,
                    {
                        if idx[j] == field_idx {
                            proof {
                                assert(g[t as int].field_indices.contains(field_idx)) by {
                                    assert(idx@[j as int] == field_idx);
                                }
                            }
                            return Some(t);
                        }
                        j += 1;
                    }
                    assert(g[t as int].field_indices == idx@);
                    assert(!g[t as int].field_indices.contains(field_idx));
                    t += 1;
                }
                None
            },
            None => None,
        }
    }
}

/// The tab shown while `focused` (a field index) has the focus: the tab
/// holding that field, or the first tab when nothing is focused or the
/// field is on no tab.
pub open spec fn shown_tab_spec(p: ProviderView, focused: Option<usize>) -> int {
    match focused {
        Some(f) => if exists|t: int| is_first_tab(p, f, t) {
            choose|t: int| is_first_tab(p, f, t)
        } else {
            0
        },
        None => 0,
    }
}

proof fn lemma_first_tab_unique(p: ProviderView, f: usize, t: int, u: int)
    requires
        is_first_tab(p, f, t),
        is_first_tab(p, f, u),
    ensures
        t == u,
{
}

impl ProviderDef {
    /// The tab to show while `focused` has the focus (see `shown_tab_spec`).
    pub fn shown_tab(&self, focused: Option<usize>) -> (r: usize)
        ensures
            r == shown_tab_spec(self@, focused),
    {
        match focused {
            Some(f) => match self.tab_for_field(f) {
                Some(t) => {
                    proof {
                        let c = choose|c: int| is_first_tab(self@, f, c);
                        lemma_first_tab_unique(self@, f, c, t as int);
                    }
                    t
                },
                None => {
                    proof {
                        if exists|t: int| is_first_tab(self@, f, t) {
                            let c = choose|c: int| is_first_tab(self@, f, c);
                            assert(self@.groups matches Some(g) && g[c].field_indices.contains(f));
                        }
                    }
                    0
                },
            },
            None => 0,
        }
    }
}

// ---- Environment variable names ----------------------------------------------

pub const ENV_BASE_URL: &'static str = "ANTHROPIC_BASE_URL";

pub const ENV_AUTH_TOKEN: &'static str = "ANTHROPIC_AUTH_TOKEN";

pub const ENV_HAIKU_MODEL: &'static str = "ANTHROPIC_DEFAULT_HAIKU_MODEL";

pub const ENV_SONNET_MODEL: &'static str = "ANTHROPIC_DEFAULT_SONNET_MODEL";

pub const ENV_OPUS_MODEL: &'static str = "ANTHROPIC_DEFAULT_OPUS_MODEL";

pub const ENV_EXTRA_BODY: &'static str = "CLAUDE_CODE_EXTRA_BODY";

pub const ENV_EFFORT_LEVEL: &'static str = "CLAUDE_CODE_EFFORT_LEVEL";

/// Used only by the status line to fetch the account balance; never passed
/// to the launched process.
pub const ENV_MANAGEMENT_KEY: &'static str = "OPENROUTER_MANAGEMENT_KEY";

/// Options for the effort level; the form adds "Custom..." itself.
pub open spec fn effort_level_options_spec() -> Seq<Seq<char>> {
    seq!["auto"@, "low"@, "medium"@, "high"@, "xhigh"@, "max"@]
}

/// Options for the effort level; the form adds "Custom..." itself.
pub fn effort_level_options() -> (r: Vec<&'static str>)
    ensures
        strs_view(r@) == effort_level_options_spec(),
{
    let r: Vec<&'static str> = vec!["auto", "low", "medium", "high", "xhigh", "max"];
    assert(strs_view(r@) =~= effort_level_options_spec());
    r
}

// ---- Registry ------------------------------------------------------------------

/// A field view with every part given.
pub open spec fn fv(
    key: Seq<char>,
    label: Seq<char>,
    field_type: FieldTypeView,
    required: bool,
    default: Option<Seq<char>>,
) -> FieldView {
    FieldView { key, label, field_type, required, default }
}

/// The effort-level field.
pub open spec fn effort_field_spec(default: Option<Seq<char>>) -> FieldView {
    fv(
        ENV_EFFORT_LEVEL@,
        "Effort Level"@,
        FieldTypeView::Choice { options: effort_level_options_spec() },
        false,
        default,
    )
}

/// The three optional model overrides.
pub open spec fn model_fields_spec() -> Seq<FieldView> {
    seq![
        fv(ENV_HAIKU_MODEL@, "Haiku Model Override"@, FieldTypeView::String, false, None),
        fv(ENV_SONNET_MODEL@, "Sonnet Model Override"@, FieldTypeView::String, false, None),
        fv(ENV_OPUS_MODEL@, "Opus Model Override"@, FieldTypeView::String, false, None),
    ]
}

/// The form shared by most providers: endpoint URL (required), token, the
/// three model overrides and the effort level.
pub open spec fn standard_fields_spec(
    url_label: Seq<char>,
    url_default: Option<Seq<char>>,
    token_label: Seq<char>,
    token_required: bool,
    token_default: Option<Seq<char>>,
    effort_default: Option<Seq<char>>,
) -> Seq<FieldView> {
    seq![
        fv(ENV_BASE_URL@, url_label, FieldTypeView::Url, true, url_default),
        fv(ENV_AUTH_TOKEN@, token_label, FieldTypeView::Secret, token_required, token_default),
    ] + model_fields_spec() + seq![effort_field_spec(effort_default)]
}

fn effort_field(default: Option<&'static str>) -> (r: ProviderField)
    ensures
        r@ == effort_field_spec(opt_str_view(default)),
{
    ProviderField {
        key: ENV_EFFORT_LEVEL,
        label: "Effort Level",
        field_type: FieldType::Choice { options: effort_level_options() },
        required: false,
        default,
    }
}

fn push_model_fields(v: &mut Vec<ProviderField>)
    ensures
        fields_view(final(v)@) == fields_view(old(v)@) + model_fields_spec(),
{
    let ghost before = fields_view(v@);
    v.push(ProviderField::field(ENV_HAIKU_MODEL, "Haiku Model Override", FieldType::String).optional());
    v.push(ProviderField::field(ENV_SONNET_MODEL, "Sonnet Model Override", FieldType::String).optional());
    v.push(ProviderField::field(ENV_OPUS_MODEL, "Opus Model Override", FieldType::String).optional());
    assert(fields_view(v@) =~= before + model_fields_spec());
}

fn standard_fields(
    url_label: &'static str,
    url_default: Option<&'static str>,
    token_label: &'static str,
    token_required: bool,
    token_default: Option<&'static str>,
    effort_default: Option<&'static str>,
) -> (r: Vec<ProviderField>)
    ensures
        fields_view(r@) == standard_fields_spec(
            url_label@,
            opt_str_view(url_default),
            token_label@,
            token_required,
            opt_str_view(token_default),
            opt_str_view(effort_default),
        ),
{
    let mut v: Vec<ProviderField> = Vec::new();
    v.push(ProviderField { key: ENV_BASE_URL, label: url_label, field_type: FieldType::Url, required: true, default: url_default });
    v.push(
        ProviderField {
            key: ENV_AUTH_TOKEN,
            label: token_label,
            field_type: FieldType::Secret,
            required: token_required,
            default: token_default,
        },
    );
    let ghost first = fields_view(v@);
    push_model_fields(&mut v);
    let ghost mid = fields_view(v@);
    v.push(effort_field(effort_default));
    assert(fields_view(v@) =~= mid.push(effort_field_spec(opt_str_view(effort_default))));
    assert(fields_view(v@) =~= standard_fields_spec(
        url_label@,
        opt_str_view(url_default),
        token_label@,
        token_required,
        opt_str_view(token_default),
        opt_str_view(effort_default),
    ));
    v
}

/// The OpenRouter form.
pub open spec fn openrouter_fields_spec() -> Seq<FieldView> {
    seq![
        fv(ENV_BASE_URL@, "API Base URL"@, FieldTypeView::Url, true, Some("https://openrouter.ai/api"@)),
        fv(ENV_AUTH_TOKEN@, "API Key"@, FieldTypeView::Secret, true, None),
        fv(ENV_MANAGEMENT_KEY@, "Management Key"@, FieldTypeView::Secret, false, None),
    ] + model_fields_spec() + seq![
        fv(
            ENV_EXTRA_BODY@,
            "Provider Only (comma-separated)"@,
            FieldTypeView::ExtraBody { json_path: "provider.only"@, value_type: ExtraBodyValueType::StringList },
            false,
            None,
        ),
        fv(
            ENV_EXTRA_BODY@,
            "Quantization Levels (comma-separated)"@,
            FieldTypeView::ExtraBody {
                json_path: "provider.quantizations"@,
                value_type: ExtraBodyValueType::StringList,
            },
            false,
            None,
        ),
        fv(
            ENV_EXTRA_BODY@,
            "Min Throughput (tokens/s)"@,
            FieldTypeView::ExtraBody {
                json_path: "provider.preferred_min_throughput"@,
                value_type: ExtraBodyValueType::Number,
            },
            false,
            None,
        ),
        fv(
            ENV_EXTRA_BODY@,
            "Allow Fallbacks"@,
            FieldTypeView::ExtraBody { json_path: "provider.allow_fallbacks"@, value_type: ExtraBodyValueType::Bool },
            false,
            None,
        ),
        effort_field_spec(None),
    ]
}

/// The OpenRouter tabs: general settings, and provider selection.
pub open spec fn openrouter_groups_spec() -> Seq<GroupView> {
    seq![
        GroupView { label: "General"@, field_indices: seq![0usize, 1, 2, 3, 4, 5, 10] },
        GroupView { label: "Provider Selection"@, field_indices: seq![6usize, 7, 8, 9] },
    ]
}

fn openrouter_fields() -> (r: Vec<ProviderField>)
    ensures
        fields_view(r@) == openrouter_fields_spec(),
{
    let mut v: Vec<ProviderField> = Vec::new();
    v.push(ProviderField::field(ENV_BASE_URL, "API Base URL", FieldType::Url).required().default("https://openrouter.ai/api"));
    v.push(ProviderField::field(ENV_AUTH_TOKEN, "API Key", FieldType::Secret).required());
    v.push(ProviderField::field(ENV_MANAGEMENT_KEY, "Management Key", FieldType::Secret).optional());
    let ghost a = fields_view(v@);
    assert(a =~= seq![
        fv(ENV_BASE_URL@, "API Base URL"@, FieldTypeView::Url, true, Some("https://openrouter.ai/api"@)),
        fv(ENV_AUTH_TOKEN@, "API Key"@, FieldTypeView::Secret, true, None),
        fv(ENV_MANAGEMENT_KEY@, "Management Key"@, FieldTypeView::Secret, false, None),
    ]);
    push_model_fields(&mut v);
    let ghost b = fields_view(v@);
    v.push(
        ProviderField::field(
            ENV_EXTRA_BODY,
            "Provider Only (comma-separated)",
            FieldType::ExtraBody { json_path: "provider.only", value_type: ExtraBodyValueType::StringList },
        ).optional(),
    );
    v.push(
        ProviderField::field(
            ENV_EXTRA_BODY,
            "Quantization Levels (comma-separated)",
            FieldType::ExtraBody { json_path: "provider.quantizations", value_type: ExtraBodyValueType::StringList },
        ).optional(),
    );
    v.push(
        ProviderField::field(
            ENV_EXTRA_BODY,
            "Min Throughput (tokens/s)",
            FieldType::ExtraBody {
                json_path: "provider.preferred_min_throughput",
                value_type: ExtraBodyValueType::Number,
            },
        ).optional(),
    );
    v.push(
        ProviderField::field(
            ENV_EXTRA_BODY,
            "Allow Fallbacks",
            FieldType::ExtraBody { json_path: "provider.allow_fallbacks", value_type: ExtraBodyValueType::Bool },
        ).optional(),
    );
    v.push(effort_field(None));
    assert(fields_view(v@) =~= b + fields_view(v@).skip(b.len() as int));
    assert(fields_view(v@) =~= openrouter_fields_spec());
    v
}

fn openrouter_groups() -> (r: Vec<ProviderFieldGroup>)
    ensures
        groups_view(r@) == openrouter_groups_spec(),
{
    let general: Vec<usize> = vec![0, 1, 2, 3, 4, 5, 10];
    let selection: Vec<usize> = vec![6, 7, 8, 9];
    let r = vec![
        ProviderFieldGroup { label: "General", field_indices: general },
        ProviderFieldGroup { label: "Provider Selection", field_indices: selection },
    ];
    assert(groups_view(r@) =~= openrouter_groups_spec());
    r
}

/// A provider view with every part given.
pub open spec fn pv(
    id: Seq<char>,
    name: Seq<char>,
    fields: Seq<FieldView>,
    supports_statusline: bool,
    groups: Option<Seq<GroupView>>,
) -> ProviderView {
    ProviderView { id, name, fields, supports_statusline, groups }
}

/// A provider with the standard form: "API Base URL" with a default, and a
/// required "API Key".
pub open spec fn api_provider_spec(id: Seq<char>, name: Seq<char>, url_default: Seq<char>) -> ProviderView {
    pv(id, name, standard_fields_spec("API Base URL"@, Some(url_default), "API Key"@, true, None, None), false, None)
}

/// All built-in providers, in menu order.
pub open spec fn registry() -> Seq<ProviderView> {
    seq![
        pv(
            "anthropic-compatible"@,
            "Any Anthropic or OpenAI Compatible"@,
            standard_fields_spec(
                "Anthropic Compatible URL"@,
                Some("http://localhost:8083"@),
                "Auth Token"@,
                false,
                None,
                None,
            ),
            false,
            None,
        ),
        api_provider_spec("zai"@, "z.ai (GLM)"@, "https://api.z.ai/api/anthropic"@),
        pv("openrouter"@, "OpenRouter"@, openrouter_fields_spec(), true, Some(openrouter_groups_spec())),
        pv(
            "deepseek"@,
            "DeepSeek"@,
            standard_fields_spec(
                "API Base URL"@,
                Some("https://api.deepseek.com/anthropic"@),
                "API Key"@,
                true,
                None,
                Some("max"@),
            ),
            true,
            None,
        ),
        api_provider_spec("minimax"@, "MiniMax"@, "https://api.minimax.chat/v1"@),
        api_provider_spec("glm"@, "GLM (ZhipuAI)"@, "https://open.bigmodel.cn/api/anthropic"@),
        api_provider_spec("moonshot"@, "Moonshot"@, "https://api.moonshot.cn/anthropic"@),
        api_provider_spec("qwen"@, "Qwen (Alibaba)"@, "https://dashscope.aliyuncs.com/compatible-mode/v1"@),
        api_provider_spec("fireworks"@, "Fireworks AI"@, "https://api.fireworks.ai/inference/v1"@),
        api_provider_spec("volcengine"@, "Volcengine"@, "https://ark.cn-beijing.volces.com/api/v3"@),
        api_provider_spec("nvidia-nim"@, "NVIDIA NIM"@, "https://integrate.api.nvidia.com/v1"@),
        pv(
            "ollama"@,
            "Ollama (local)"@,
            standard_fields_spec("Ollama URL"@, Some("http://localhost:11434"@), "Auth Token"@, false, None, None),
            false,
            None,
        ),
        pv(
            "lmstudio"@,
            "LM Studio"@,
            standard_fields_spec(
                "LM Studio URL"@,
                Some("http://localhost:1234"@),
                "Auth Token"@,
                true,
                Some("lm-studio"@),
                None,
            ),
            false,
            None,
        ),
        pv(
            "vllm"@,
            "vLLM"@,
            standard_fields_spec("vLLM URL"@, Some("http://localhost:8000"@), "Auth Token"@, false, None, None),
            false,
            None,
        ),
        pv(
            "litellm"@,
            "LiteLLM"@,
            standard_fields_spec("LiteLLM URL"@, Some("http://localhost:4000"@), "API Key"@, false, None, None),
            false,
            None,
        ),
        pv(
            "cloudflare"@,
            "Cloudflare AI Gateway"@,
            standard_fields_spec("Gateway URL"@, None, "API Key"@, true, None, None),
            false,
            None,
        ),
        pv(
            "vercel"@,
            "Vercel AI Gateway"@,
            standard_fields_spec("Gateway URL"@, None, "API Key"@, true, None, None),
            false,
            None,
        ),
        pv(
            PROVIDER_LLAMACPP_SINGLE_MODEL@,
            "llama.cpp (single model, auto-detect)"@,
            llamacpp::llamacpp_fields_spec(),
            false,
            None,
        ),
    ]
}

fn api_provider(id: &'static str, name: &'static str, url_default: &'static str) -> (r: ProviderDef)
    ensures
        r@ == api_provider_spec(id@, name@, url_default@),
{
    ProviderDef {
        id,
        name,
        fields: standard_fields("API Base URL", Some(url_default), "API Key", true, None, None),
        supports_statusline: false,
        groups: None,
    }
}

/// The views of a sequence of providers.
pub open spec fn providers_view(v: Seq<ProviderDef>) -> Seq<ProviderView> {
    v.map_values(|p: ProviderDef| p@)
}

/// All built-in providers, in menu order.
pub fn providers() -> (r: Vec<ProviderDef>)
    ensures
        providers_view(r@) == registry(),
{
    let mut v: Vec<ProviderDef> = Vec::new();
    v.push(
        ProviderDef {
            id: "anthropic-compatible",
            name: "Any Anthropic or OpenAI Compatible",
            fields: standard_fields("Anthropic Compatible URL", Some("http://localhost:8083"), "Auth Token", false, None, None),
            supports_statusline: false,
            groups: None,
        },
    );
    v.push(api_provider("zai", "z.ai (GLM)", "https://api.z.ai/api/anthropic"));
    v.push(
        ProviderDef {
            id: "openrouter",
            name: "OpenRouter",
            fields: openrouter_fields(),
            supports_statusline: true,
            groups: Some(openrouter_groups()),
        },
    );
    v.push(
        ProviderDef {
            id: "deepseek",
            name: "DeepSeek",
            fields: standard_fields(
                "API Base URL",
                Some("https://api.deepseek.com/anthropic"),
                "API Key",
                true,
                None,
                Some("max"),
            ),
            supports_statusline: true,
            groups: None,
        },
    );
    v.push(api_provider("minimax", "MiniMax", "https://api.minimax.chat/v1"));
    v.push(api_provider("glm", "GLM (ZhipuAI)", "https://open.bigmodel.cn/api/anthropic"));
    v.push(api_provider("moonshot", "Moonshot", "https://api.moonshot.cn/anthropic"));
    v.push(api_provider("qwen", "Qwen (Alibaba)", "https://dashscope.aliyuncs.com/compatible-mode/v1"));
    v.push(api_provider("fireworks", "Fireworks AI", "https://api.fireworks.ai/inference/v1"));
    v.push(api_provider("volcengine", "Volcengine", "https://ark.cn-beijing.volces.com/api/v3"));
    v.push(api_provider("nvidia-nim", "NVIDIA NIM", "https://integrate.api.nvidia.com/v1"));
    v.push(
        ProviderDef {
            id: "ollama",
            name: "Ollama (local)",
            fields: standard_fields("Ollama URL", Some("http://localhost:11434"), "Auth Token", false, None, None),
            supports_statusline: false,
            groups: None,
        },
    );
    v.push(
        ProviderDef {
            id: "lmstudio",
            name: "LM Studio",
            fields: standard_fields("LM Studio URL", Some("http://localhost:1234"), "Auth Token", true, Some("lm-studio"), None),
            supports_statusline: false,
            groups: None,
        },
    );
    v.push(
        ProviderDef {
            id: "vllm",
            name: "vLLM",
            fields: standard_fields("vLLM URL", Some("http://localhost:8000"), "Auth Token", false, None, None),
            supports_statusline: false,
            groups: None,
        },
    );
    v.push(
        ProviderDef {
            id: "litellm",
            name: "LiteLLM",
            fields: standard_fields("LiteLLM URL", Some("http://localhost:4000"), "API Key", false, None, None),
            supports_statusline: false,
            groups: None,
        },
    );
    v.push(
        ProviderDef {
            id: "cloudflare",
            name: "Cloudflare AI Gateway",
            fields: standard_fields("Gateway URL", None, "API Key", true, None, None),
            supports_statusline: false,
            groups: None,
        },
    );
    v.push(
        ProviderDef {
            id: "vercel",
            name: "Vercel AI Gateway",
            fields: standard_fields("Gateway URL", None, "API Key", true, None, None),
            supports_statusline: false,
            groups: None,
        },
    );
    v.push(
        ProviderDef {
            id: PROVIDER_LLAMACPP_SINGLE_MODEL,
            name: "llama.cpp (single model, auto-detect)",
            fields: llamacpp::llamacpp_fields(),
            supports_statusline: false,
            groups: None,
        },
    );
    assert(providers_view(v@) =~= registry());
    v
}

/// The built-in provider with id `id`, if any (the first, should ids repeat).
pub open spec fn find_provider_spec(id: Seq<char>) -> Option<ProviderView> {
    if exists|i: int| 0 <= i < registry().len() && registry()[i].id == id {
        Some(
            registry()[choose|i: int|
                0 <= i < registry().len() && registry()[i].id == id && forall|j: int|
                    0 <= j < i ==> registry()[j].id != id],
        )
    } else {
        None
    }
}

/// The built-in provider with id `id`, if any.
pub fn get_provider(id: &str) -> (r: Option<ProviderDef>)
    ensures
        match r {
            Some(p) => find_provider_spec(id@) == Some(p@),
            None => find_provider_spec(id@) is None,
        },
{
    let mut ps = providers();
    let ghost reg = registry();
    let mut i: usize = 0;
    while i < ps.len()
        invariant
            providers_view(ps@) == reg,
            reg == registry(),
            0 <= i <= ps@.len(),
            forall|j: int| 0 <= j < i ==> reg[j].id != id@,
        decreases ps.len() - i,
    {
        if str_eq(ps[i].id, id) {
            proof {
                assert(reg[i as int] == ps@[i as int]@);
                let c = choose|c: int|
                    0 <= c < reg.len() && reg[c].id == id@ && forall|j: int| 0 <= j < c ==> reg[j].id != id@;
                if c > i {
                    assert(reg[i as int].id == id@);
                }
            }
            let p = ps.remove(i);
            return Some(p);
        }
        assert(reg[i as int] == ps@[i as int]@);
        i += 1;
    }
    None
}

// ---- Laws ----------------------------------------------------------------------

/// Law: the tab found for a field is one of the form's tabs, and showing that
/// tab shows the field.
pub proof fn lemma_tab_for_field_shows_field(p: ProviderView, field_idx: usize, t: int)
    requires
        is_first_tab(p, field_idx, t),
    ensures
        0 <= t < tab_count_spec(p),
        tab_field_indices_spec(p, t).contains(field_idx),
{
}

/// Law: no two built-in providers share an id.
pub proof fn lemma_registry_ids_distinct()
    ensures
        forall|i: int, j: int|
            0 <= i < j < registry().len() ==> #[trigger] registry()[i].id != #[trigger] registry()[j].id,
{
    reveal_strlit("anthropic-compatible");
    reveal_strlit("zai");
    reveal_strlit("openrouter");
    reveal_strlit("deepseek");
    reveal_strlit("minimax");
    reveal_strlit("glm");
    reveal_strlit("moonshot");
    reveal_strlit("qwen");
    reveal_strlit("fireworks");
    reveal_strlit("volcengine");
    reveal_strlit("nvidia-nim");
    reveal_strlit("ollama");
    reveal_strlit("lmstudio");
    reveal_strlit("vllm");
    reveal_strlit("litellm");
    reveal_strlit("cloudflare");
    reveal_strlit("vercel");
    reveal_strlit("llama-single-model");
    let r = registry();
    assert forall|i: int, j: int| 0 <= i < j < r.len() implies #[trigger] r[i].id != #[trigger] r[j].id by {
        assert(r[i].id.len() != r[j].id.len() || r[i].id[0] != r[j].id[0] || r[i].id[1] != r[j].id[1]
            || r[i].id[2] != r[j].id[2]);
    }
}

/// Law: every OpenRouter field sits on exactly one tab: the first six fields
/// and the effort level on "General", the four extra-body fields on
/// "Provider Selection".
pub proof fn lemma_openrouter_tabs(field_idx: usize)
    requires
        field_idx < openrouter_fields_spec().len(),
    ensures
        is_first_tab(registry()[2], field_idx, if 6 <= field_idx <= 9 {
            1
        } else {
            0
        }),
        registry()[2].groups matches Some(g) && !g[if 6 <= field_idx <= 9 {
            0
        } else {
            1
        }].field_indices.contains(field_idx),
{
    let g = openrouter_groups_spec();
    assert(registry()[2].groups == Some(g));
    assert(openrouter_fields_spec().len() == 11);
    let a = g[0].field_indices;
    let b = g[1].field_indices;
    if 6 <= field_idx <= 9 {
        assert(b[field_idx - 6] == field_idx);
        assert forall|k: int| 0 <= k < a.len() implies a[k] != field_idx by {}
    } else {
        if field_idx == 10 {
            assert(a[6] == field_idx);
        } else {
            assert(a[field_idx as int] == field_idx);
        }
        assert forall|k: int| 0 <= k < b.len() implies b[k] != field_idx by {}
    }
}


/// Some tab of `g` lists field `f`.
pub open spec fn on_some_tab(g: Seq<GroupView>, f: usize) -> bool {
    exists|t: int| 0 <= t < g.len() && #[trigger] g[t].field_indices.contains(f)
}

/// The tabs of `p`, if it has any, split its fields: every index they list
/// names a field, every field is on a tab, and no field is on two tabs.
pub open spec fn tabs_partition_fields(p: ProviderView) -> bool {
    match p.groups {
        Some(g) => {
            &&& forall|t: int, k: int|
                0 <= t < g.len() && 0 <= k < g[t].field_indices.len() ==> (#[trigger] g[t].field_indices[k] as int)
                    < p.fields.len()
            &&& forall|f: usize| (f as int) < p.fields.len() ==> #[trigger] on_some_tab(g, f)
            &&& forall|f: usize, t: int, u: int|
                0 <= t < u < g.len() ==> !(#[trigger] g[t].field_indices.contains(f) && #[trigger] g[u].field_indices.contains(
                    f,
                ))
        },
        None => true,
    }
}

/// Law: the tabs of every built-in provider split its fields (only
/// OpenRouter has tabs; the others show one flat form).
pub proof fn lemma_registry_tabs_partition()
    ensures
        forall|i: int| 0 <= i < registry().len() ==> tabs_partition_fields(#[trigger] registry()[i]),
{
    let r = registry();
    assert forall|i: int| 0 <= i < r.len() implies tabs_partition_fields(#[trigger] r[i]) by {
        if i == 2 {
            let p = r[2];
            let g = openrouter_groups_spec();
            assert(p.groups == Some(g));
            assert(p.fields.len() == 11);
            assert forall|f: usize| (f as int) < p.fields.len() implies #[trigger] on_some_tab(g, f) by {
                lemma_openrouter_tabs(f);
            }
            assert forall|f: usize, t: int, u: int| 0 <= t < u < g.len() implies !(#[trigger] g[t].field_indices.contains(
                f,
            ) && #[trigger] g[u].field_indices.contains(f)) by {
                if g[0].field_indices.contains(f) {
                    let k = choose|k: int| 0 <= k < g[0].field_indices.len() && g[0].field_indices[k] == f;
                    assert((f as int) < 11);
                    lemma_openrouter_tabs(f);
                }
            }
        } else {
            assert(r[i].groups is None);
        }
    }
}

/// Law: on a provider whose tabs split its fields, every field a tab shows
/// is found on that tab.
pub proof fn lemma_shown_field_on_its_tab(p: ProviderView, t: int, f: usize)
    requires
        tabs_partition_fields(p),
        p.groups is Some,
        0 <= t < tab_count_spec(p),
        tab_field_indices_spec(p, t).contains(f),
    ensures
        is_first_tab(p, f, t),
{
    let g = p.groups->Some_0;
    assert forall|u: int| 0 <= u < t implies !g[u].field_indices.contains(f) by {
        if g[u].field_indices.contains(f) {
            assert(g[u].field_indices.contains(f) && g[t].field_indices.contains(f));
        }
    }
}

/// Looking up the id of the `i`-th built-in provider finds that provider.
pub proof fn lemma_find_registry(i: int)
    requires
        0 <= i < registry().len(),
    ensures
        find_provider_spec(registry()[i].id) == Some(registry()[i]),
{
    lemma_registry_ids_distinct();
    let r = registry();
    let w = choose|k: int| 0 <= k < r.len() && r[k].id == r[i].id && forall|j: int| 0 <= j < k ==> r[j].id != r[i].id;
    assert(0 <= i < r.len() && r[i].id == r[i].id && forall|j: int| 0 <= j < i ==> r[j].id != r[i].id);
    if w != i {
        if w < i {
            assert(r[w].id != r[i].id);
        } else {
            assert(r[i].id != r[w].id);
        }
    }
}

} // verus!
