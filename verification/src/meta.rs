//! Shared resource metadata: object identity, type discriminators, and the
//! paging envelope and options used by list operations.

use vstd::prelude::*;

use crate::json::{Json, JsonV};
use crate::payload::{
    get_json, get_opt_json, get_opt_i64, get_opt_str, get_str, group_lookup_rules, jv_lookup,
    jv_opt_i64, jv_opt_str, jv_str, of_jv_seq, opt_field, opt_i64_field, opt_str_field,
    push_field, push_opt_i64_field, push_opt_str_field, push_str_field, sfield, to_jv_seq,
    Payload,
};

verus! {

/// Identity of one stored resource: its id and the server-assigned creation
/// timestamp, carried as an opaque RFC 3339 string and never interpreted by
/// this library.
#[derive(Debug, Clone, PartialEq)]
pub struct ObjectMeta {
    pub id: String,
    pub created: Option<String>,
}

/// The mathematical model of an [`ObjectMeta`].
pub struct ObjectMetaV {
    pub id: Seq<char>,
    pub created: Option<Seq<char>>,
}

impl View for ObjectMeta {
    type V = ObjectMetaV;

    open spec fn view(&self) -> ObjectMetaV {
        ObjectMetaV { id: self.id@, created: self.created.deep_view() }
    }
}

impl DeepView for ObjectMeta {
    type V = ObjectMetaV;

    open spec fn deep_view(&self) -> ObjectMetaV {
        self.view()
    }
}

/// The API version discriminator stamped onto outbound payloads.
#[derive(Debug, Clone, Copy, PartialEq, Eq, Structural)]
pub enum APIVersion {
    V2,
}

/// The resource kind discriminator stamped onto outbound payloads.
#[derive(Debug, Clone, Copy, PartialEq, Eq, Structural)]
pub enum Kind {
    Token,
    Project,
    Event,
}

/// The `kind`/`apiVersion` pair identifying a resource on the wire.  On
/// outbound create and update payloads it is (re)stamped by the resource
/// client immediately before send.
#[derive(Debug, Clone, Copy, PartialEq, Eq, Structural)]
pub struct TypeMeta {
    pub kind: Kind,
    pub api_version: APIVersion,
}

impl View for TypeMeta {
    type V = TypeMeta;

    open spec fn view(&self) -> TypeMeta {
        *self
    }
}

impl DeepView for TypeMeta {
    type V = TypeMeta;

    open spec fn deep_view(&self) -> TypeMeta {
        *self
    }
}

/// Continuation metadata of one page of a listing.
#[derive(Debug, Clone, PartialEq)]
pub struct ListMeta {
    pub continue_id: Option<String>,
    pub remaining_item_count: Option<i64>,
}

/// The mathematical model of a [`ListMeta`].
pub struct ListMetaV {
    pub continue_id: Option<Seq<char>>,
    pub remaining_item_count: Option<i64>,
}

impl View for ListMeta {
    type V = ListMetaV;

    open spec fn view(&self) -> ListMetaV {
        ListMetaV {
            continue_id: self.continue_id.deep_view(),
            remaining_item_count: self.remaining_item_count,
        }
    }
}

impl DeepView for ListMeta {
    type V = ListMetaV;

    open spec fn deep_view(&self) -> ListMetaV {
        self.view()
    }
}

/// One page of a listing: its continuation metadata and the items in the
/// order the server returned them.
#[derive(Debug, PartialEq)]
pub struct List<T> {
    pub metadata: ListMeta,
    pub items: Option<Vec<T>>,
}

/// The mathematical model of a [`List`], over the item model `V`.
pub struct ListV<V> {
    pub metadata: ListMetaV,
    pub items: Option<Seq<V>>,
}

impl<T: DeepView> View for List<T> {
    type V = ListV<<T as DeepView>::V>;

    open spec fn view(&self) -> ListV<<T as DeepView>::V> {
        ListV { metadata: self.metadata@, items: self.items.deep_view() }
    }
}

impl<T: DeepView> DeepView for List<T> {
    type V = ListV<<T as DeepView>::V>;

    open spec fn deep_view(&self) -> ListV<<T as DeepView>::V> {
        self.view()
    }
}

/// Caller-supplied paging controls for a list operation: an optional
/// continuation token and an optional page-size limit.
#[derive(Debug, Clone, PartialEq)]
pub struct ListOptions {
    pub continue_id: Option<String>,
    pub limit: Option<i64>,
}

/// The mathematical model of a [`ListOptions`].
pub struct ListOptionsV {
    pub continue_id: Option<Seq<char>>,
    pub limit: Option<i64>,
}

impl View for ListOptions {
    type V = ListOptionsV;

    open spec fn view(&self) -> ListOptionsV {
        ListOptionsV { continue_id: self.continue_id.deep_view(), limit: self.limit }
    }
}

impl DeepView for ListOptions {
    type V = ListOptionsV;

    open spec fn deep_view(&self) -> ListOptionsV {
        self.view()
    }
}

impl View for APIVersion {
    type V = APIVersion;

    open spec fn view(&self) -> APIVersion {
        *self
    }
}

impl DeepView for APIVersion {
    type V = APIVersion;

    open spec fn deep_view(&self) -> APIVersion {
        *self
    }
}

impl View for Kind {
    type V = Kind;

    open spec fn view(&self) -> Kind {
        *self
    }
}

impl DeepView for Kind {
    type V = Kind;

    open spec fn deep_view(&self) -> Kind {
        *self
    }
}

/// The wire name of a resource kind.
pub open spec fn kind_name(k: Kind) -> Seq<char> {
    match k {
        Kind::Token => "Token"@,
        Kind::Project => "Project"@,
        Kind::Event => "Event"@,
    }
}

impl Payload for Kind {
    open spec fn to_jv(v: Kind) -> JsonV {
        JsonV::Str(kind_name(v))
    }

    open spec fn of_jv(j: JsonV) -> Option<Kind> {
        match j {
            JsonV::Str(s) => if s == "Token"@ {
                Some(Kind::Token)
            } else if s == "Project"@ {
                Some(Kind::Project)
            } else if s == "Event"@ {
                Some(Kind::Event)
            } else {
                None
            },
            _ => None,
        }
    }

    fn to_json(&self) -> (r: Json) {
        match self {
            Kind::Token => Json::Str(String::from_str("Token")),
            Kind::Project => Json::Str(String::from_str("Project")),
            Kind::Event => Json::Str(String::from_str("Event")),
        }
    }

    fn from_json(j: &Json) -> (r: Option<Self>) {
        proof {
            reveal_strlit("Token");
            reveal_strlit("Project");
            reveal_strlit("Event");
        }
        match j {
            Json::Str(s) => {
                let tok = String::from_str("Token");
                let prj = String::from_str("Project");
                let evt = String::from_str("Event");
                if *s == tok {
                    Some(Kind::Token)
                } else if *s == prj {
                    Some(Kind::Project)
                } else if *s == evt {
                    Some(Kind::Event)
                } else {
                    None
                }
            },
            _ => None,
        }
    }

    proof fn lemma_round_trip(v: Kind) {
        reveal_strlit("Token");
        reveal_strlit("Project");
        reveal_strlit("Event");
        assert("Token"@.len() == 5);
        assert("Project"@.len() == 7);
        match v {
            Kind::Token => {
                assert(Self::of_jv(JsonV::Str("Token"@)) == Some(Kind::Token));
            },
            Kind::Project => {
                assert(Self::of_jv(JsonV::Str("Project"@)) == Some(Kind::Project));
            },
            Kind::Event => {
                assert("Event"@[0] != "Token"@[0]);
                assert("Event"@ != "Token"@);
                assert("Event"@ != "Project"@);
                assert(Self::of_jv(JsonV::Str("Event"@)) == Some(Kind::Event));
            },
        }
    }
}

impl Payload for APIVersion {
    open spec fn to_jv(v: APIVersion) -> JsonV {
        JsonV::Str("brigade.sh/v2"@)
    }

    open spec fn of_jv(j: JsonV) -> Option<APIVersion> {
        match j {
            JsonV::Str(s) => if s == "brigade.sh/v2"@ {
                Some(APIVersion::V2)
            } else {
                None
            },
            _ => None,
        }
    }

    fn to_json(&self) -> (r: Json) {
        Json::Str(String::from_str("brigade.sh/v2"))
    }

    fn from_json(j: &Json) -> (r: Option<Self>) {
        match j {
            Json::Str(s) => {
                let v2 = String::from_str("brigade.sh/v2");
                if *s == v2 {
                    Some(APIVersion::V2)
                } else {
                    None
                }
            },
            _ => None,
        }
    }

    proof fn lemma_round_trip(v: APIVersion) {
    }
}

/// The members contributed by an optional `kind`/`apiVersion` pair, which
/// is flattened into the same object as the resource it tags.
pub open spec fn tm_fields(o: Option<TypeMeta>) -> Seq<(Seq<char>, JsonV)> {
    match o {
        Some(tm) => sfield("kind"@, <Kind as Payload>::to_jv(tm.kind)) + sfield(
            "apiVersion"@,
            <APIVersion as Payload>::to_jv(tm.api_version),
        ),
        None => Seq::empty(),
    }
}

/// The optional `kind`/`apiVersion` pair read back from an object: absent
/// when either member is missing, an error when either is malformed.
pub open spec fn tm_of(m: Seq<(Seq<char>, JsonV)>) -> Option<Option<TypeMeta>> {
    match (jv_lookup(m, "kind"@), jv_lookup(m, "apiVersion"@)) {
        (Some(kj), Some(aj)) => match (
            <Kind as Payload>::of_jv(kj),
            <APIVersion as Payload>::of_jv(aj),
        ) {
            (Some(k), Some(a)) => Some(Some(TypeMeta { kind: k, api_version: a })),
            _ => None,
        },
        _ => Some(None),
    }
}

/// What a lookup finds among flattened `kind`/`apiVersion` members.
pub broadcast proof fn lemma_lookup_tm_fields(o: Option<TypeMeta>, k2: Seq<char>)
    ensures
        #[trigger] jv_lookup(tm_fields(o), k2) == (match o {
            Some(tm) => if k2 == "kind"@ {
                Some(<Kind as Payload>::to_jv(tm.kind))
            } else if k2 == "apiVersion"@ {
                Some(<APIVersion as Payload>::to_jv(tm.api_version))
            } else {
                Option::<JsonV>::None
            },
            None => Option::<JsonV>::None,
        }),
{
    broadcast use group_lookup_rules;

    reveal_strlit("kind");
    reveal_strlit("apiVersion");
    match o {
        Some(tm) => {
            assert(tm_fields(o) == sfield("kind"@, <Kind as Payload>::to_jv(tm.kind)) + sfield(
                "apiVersion"@,
                <APIVersion as Payload>::to_jv(tm.api_version),
            ));
        },
        None => {
        },
    }
}

/// Appends the flattened `kind`/`apiVersion` members when a pair is
/// present.
pub fn push_tm(out: &mut Vec<(String, Json)>, o: Option<TypeMeta>)
    ensures
        crate::json::obj_v(final(out)@) == crate::json::obj_v(old(out)@) + tm_fields(o),
{
    match o {
        Option::Some(tm) => {
            push_field(out, "kind", tm.kind.to_json());
            push_field(out, "apiVersion", tm.api_version.to_json());
            proof {
                assert(crate::json::obj_v(out@) =~= crate::json::obj_v(old(out)@) + tm_fields(o));
            }
        },
        Option::None => {
            proof {
                assert(crate::json::obj_v(out@) =~= crate::json::obj_v(old(out)@) + tm_fields(o));
            }
        },
    }
}

/// Reads the flattened `kind`/`apiVersion` pair back from an object.
pub fn get_tm(fields: &Vec<(String, Json)>) -> (r: Option<Option<TypeMeta>>)
    ensures
        (match r {
            Some(o) => tm_of(crate::json::obj_v(fields@)) == Some(o),
            None => tm_of(crate::json::obj_v(fields@)) is None,
        }),
{
    let kj = get_json(fields, "kind");
    let aj = get_json(fields, "apiVersion");
    match (kj, aj) {
        (Option::Some(kx), Option::Some(ax)) => {
            match (Kind::from_json(kx), APIVersion::from_json(ax)) {
                (Option::Some(k), Option::Some(a)) => Some(
                    Some(TypeMeta { kind: k, api_version: a }),
                ),
                _ => None,
            }
        },
        _ => Some(None),
    }
}

impl Payload for TypeMeta {
    open spec fn to_jv(v: TypeMeta) -> JsonV {
        JsonV::Obj(tm_fields(Some(v)))
    }

    open spec fn of_jv(j: JsonV) -> Option<TypeMeta> {
        match j {
            JsonV::Obj(m) => match tm_of(m) {
                Some(Some(tm)) => Some(tm),
                _ => None,
            },
            _ => None,
        }
    }

    fn to_json(&self) -> (r: Json) {
        let mut out: Vec<(String, Json)> = Vec::new();
        push_tm(&mut out, Some(*self));
        proof {
            crate::json::lemma_json_v_obj(out);
            assert(crate::json::obj_v(Seq::<(String, Json)>::empty()) + tm_fields(Some(*self))
                =~= tm_fields(Some(*self)));
        }
        Json::Obj(out)
    }

    fn from_json(j: &Json) -> (r: Option<Self>) {
        match j {
            Json::Obj(fields) => {
                proof {
                    assert(*j == Json::Obj(*fields));
                    crate::json::lemma_json_v_obj(*fields);
                }
                match get_tm(fields) {
                    Option::Some(Option::Some(tm)) => Some(tm),
                    _ => None,
                }
            },
            _ => None,
        }
    }

    proof fn lemma_round_trip(v: TypeMeta) {
        reveal_strlit("kind");
        reveal_strlit("apiVersion");
        assert("kind"@.len() == 4);
        assert("apiVersion"@.len() == 10);
        let m = tm_fields(Some(v));
        assert(Self::to_jv(v) == JsonV::Obj(m));
        lemma_lookup_tm_fields(Some(v), "kind"@);
        lemma_lookup_tm_fields(Some(v), "apiVersion"@);
        assert(jv_lookup(m, "kind"@) == Some(<Kind as Payload>::to_jv(v.kind)));
        assert(jv_lookup(m, "apiVersion"@) == Some(
            <APIVersion as Payload>::to_jv(v.api_version),
        ));
        <Kind as Payload>::lemma_round_trip(v.kind);
        <APIVersion as Payload>::lemma_round_trip(v.api_version);
        assert(tm_of(m) == Some(Some(v)));
    }
}

impl Payload for ObjectMeta {
    open spec fn to_jv(v: ObjectMetaV) -> JsonV {
        JsonV::Obj(sfield("id"@, JsonV::Str(v.id)) + opt_str_field("created"@, v.created))
    }

    open spec fn of_jv(j: JsonV) -> Option<ObjectMetaV> {
        match j {
            JsonV::Obj(m) => match (jv_str(m, "id"@), jv_opt_str(m, "created"@)) {
                (Some(id), Some(created)) => Some(ObjectMetaV { id, created }),
                _ => None,
            },
            _ => None,
        }
    }

    fn to_json(&self) -> (r: Json) {
        let mut out: Vec<(String, Json)> = Vec::new();
        push_str_field(&mut out, "id", &self.id);
        push_opt_str_field(&mut out, "created", &self.created);
        proof {
            crate::json::lemma_json_v_obj(out);
            assert(crate::json::obj_v(Seq::<(String, Json)>::empty()) + sfield(
                "id"@,
                JsonV::Str(self.id@),
            ) + opt_str_field("created"@, self.created.deep_view()) =~= sfield(
                "id"@,
                JsonV::Str(self.id@),
            ) + opt_str_field("created"@, self.created.deep_view()));
        }
        Json::Obj(out)
    }

    fn from_json(j: &Json) -> (r: Option<Self>) {
        match j {
            Json::Obj(fields) => {
                proof {
                    assert(*j == Json::Obj(*fields));
                    crate::json::lemma_json_v_obj(*fields);
                }
                match (get_str(fields, "id"), get_opt_str(fields, "created")) {
                    (Option::Some(id), Option::Some(created)) => Some(
                        ObjectMeta { id, created },
                    ),
                    _ => None,
                }
            },
            _ => None,
        }
    }

    proof fn lemma_round_trip(v: ObjectMetaV) {
        broadcast use group_lookup_rules;

        reveal_strlit("id");
        reveal_strlit("created");
        assert("id"@.len() == 2);
        assert("created"@.len() == 7);
        let m = sfield("id"@, JsonV::Str(v.id)) + opt_str_field("created"@, v.created);
        assert(Self::to_jv(v) == JsonV::Obj(m));
        assert(jv_str(m, "id"@) == Some(v.id));
        assert(jv_opt_str(m, "created"@) == Some(v.created));
    }
}

impl Payload for ListMeta {
    open spec fn to_jv(v: ListMetaV) -> JsonV {
        JsonV::Obj(
            opt_str_field("continue"@, v.continue_id) + opt_i64_field(
                "remainingItemCount"@,
                v.remaining_item_count,
            ),
        )
    }

    open spec fn of_jv(j: JsonV) -> Option<ListMetaV> {
        match j {
            JsonV::Obj(m) => match (
                jv_opt_str(m, "continue"@),
                jv_opt_i64(m, "remainingItemCount"@),
            ) {
                (Some(continue_id), Some(remaining_item_count)) => Some(
                    ListMetaV { continue_id, remaining_item_count },
                ),
                _ => None,
            },
            _ => None,
        }
    }

    fn to_json(&self) -> (r: Json) {
        let mut out: Vec<(String, Json)> = Vec::new();
        push_opt_str_field(&mut out, "continue", &self.continue_id);
        push_opt_i64_field(&mut out, "remainingItemCount", self.remaining_item_count);
        proof {
            crate::json::lemma_json_v_obj(out);
            assert(crate::json::obj_v(Seq::<(String, Json)>::empty()) + opt_str_field(
                "continue"@,
                self.continue_id.deep_view(),
            ) + opt_i64_field("remainingItemCount"@, self.remaining_item_count) =~= opt_str_field(
                "continue"@,
                self.continue_id.deep_view(),
            ) + opt_i64_field("remainingItemCount"@, self.remaining_item_count));
        }
        Json::Obj(out)
    }

    fn from_json(j: &Json) -> (r: Option<Self>) {
        match j {
            Json::Obj(fields) => {
                proof {
                    assert(*j == Json::Obj(*fields));
                    crate::json::lemma_json_v_obj(*fields);
                }
                match (
                    get_opt_str(fields, "continue"),
                    get_opt_i64(fields, "remainingItemCount"),
                ) {
                    (Option::Some(continue_id), Option::Some(remaining_item_count)) => Some(
                        ListMeta { continue_id, remaining_item_count },
                    ),
                    _ => None,
                }
            },
            _ => None,
        }
    }

    proof fn lemma_round_trip(v: ListMetaV) {
        broadcast use group_lookup_rules;

        reveal_strlit("continue");
        reveal_strlit("remainingItemCount");
        assert("continue"@.len() == 8);
        assert("remainingItemCount"@.len() == 18);
        let m = opt_str_field("continue"@, v.continue_id) + opt_i64_field(
            "remainingItemCount"@,
            v.remaining_item_count,
        );
        assert(Self::to_jv(v) == JsonV::Obj(m));
        assert(jv_opt_str(m, "continue"@) == Some(v.continue_id));
        assert(jv_opt_i64(m, "remainingItemCount"@) == Some(v.remaining_item_count));
    }
}

/// The optional `items` member of a listing, as a document.
pub open spec fn items_doc<T: Payload>(items: Option<Seq<<T as DeepView>::V>>) -> Option<JsonV> {
    match items {
        Some(its) => Some(JsonV::Arr(to_jv_seq::<T>(its))),
        None => None,
    }
}

impl<T: Payload> Payload for List<T> {
    open spec fn to_jv(v: ListV<<T as DeepView>::V>) -> JsonV {
        JsonV::Obj(
            sfield("metadata"@, <ListMeta as Payload>::to_jv(v.metadata)) + opt_field(
                "items"@,
                items_doc::<T>(v.items),
            ),
        )
    }

    open spec fn of_jv(j: JsonV) -> Option<ListV<<T as DeepView>::V>> {
        match j {
            JsonV::Obj(m) => match jv_lookup(m, "metadata"@) {
                None => None,
                Some(mj) => match <ListMeta as Payload>::of_jv(mj) {
                    None => None,
                    Some(metadata) => match jv_lookup(m, "items"@) {
                        None => Some(ListV { metadata, items: None }),
                        Some(JsonV::Null) => Some(ListV { metadata, items: None }),
                        Some(JsonV::Arr(js)) => match of_jv_seq::<T>(js) {
                            None => None,
                            Some(its) => Some(ListV { metadata, items: Some(its) }),
                        },
                        Some(_) => None,
                    },
                },
            },
            _ => None,
        }
    }

    fn to_json(&self) -> (r: Json) {
        let mut out: Vec<(String, Json)> = Vec::new();
        push_field(&mut out, "metadata", self.metadata.to_json());
        let itemsj: Option<Json> = match &self.items {
            Option::Some(its) => Option::Some(crate::payload::seq_to_json::<T>(its)),
            Option::None => Option::None,
        };
        proof {
            assert(itemsj.deep_view() == items_doc::<T>(self.items.deep_view()));
        }
        crate::payload::push_opt_json_field(&mut out, "items", itemsj);
        proof {
            crate::json::lemma_json_v_obj(out);
            assert(crate::json::obj_v(Seq::<(String, Json)>::empty()) + sfield(
                "metadata"@,
                <ListMeta as Payload>::to_jv(self.metadata@),
            ) + opt_field("items"@, items_doc::<T>(self.items.deep_view())) =~= sfield(
                "metadata"@,
                <ListMeta as Payload>::to_jv(self.metadata@),
            ) + opt_field("items"@, items_doc::<T>(self.items.deep_view())));
        }
        Json::Obj(out)
    }

    fn from_json(j: &Json) -> (r: Option<Self>) {
        match j {
            Json::Obj(fields) => {
                proof {
                    assert(*j == Json::Obj(*fields));
                    crate::json::lemma_json_v_obj(*fields);
                }
                let mj = match get_json(fields, "metadata") {
                    Option::Some(x) => x,
                    Option::None => {
                        return None;
                    },
                };
                let metadata = match ListMeta::from_json(mj) {
                    Option::Some(m) => m,
                    Option::None => {
                        return None;
                    },
                };
                match get_opt_json(fields, "items") {
                    Option::Some(ij) => {
                        match crate::payload::json_to_seq::<T>(ij) {
                            Option::Some(its) => Some(
                                List { metadata, items: Option::Some(its) },
                            ),
                            Option::None => None,
                        }
                    },
                    Option::None => Some(List { metadata, items: Option::None }),
                }
            },
            _ => None,
        }
    }

    proof fn lemma_round_trip(v: ListV<<T as DeepView>::V>) {
        broadcast use group_lookup_rules;

        reveal_strlit("metadata");
        reveal_strlit("items");
        assert("metadata"@.len() == 8);
        assert("items"@.len() == 5);
        let m = sfield("metadata"@, <ListMeta as Payload>::to_jv(v.metadata)) + opt_field(
            "items"@,
            items_doc::<T>(v.items),
        );
        assert(Self::to_jv(v) == JsonV::Obj(m));
        assert(jv_lookup(m, "metadata"@) == Some(<ListMeta as Payload>::to_jv(v.metadata)));
        <ListMeta as Payload>::lemma_round_trip(v.metadata);
        match v.items {
            Some(its) => {
                assert(jv_lookup(m, "items"@) == Some(JsonV::Arr(to_jv_seq::<T>(its))));
                crate::payload::lemma_seq_round_trip::<T>(its);
            },
            None => {
                assert(jv_lookup(m, "items"@) is None);
            },
        }
    }
}

} // verus!
