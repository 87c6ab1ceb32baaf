//! The store service's `GetAppList` endpoint: its parameters, its payload,
//! and how a request's outcome becomes an `AppList` or a tagged error.
use vstd::prelude::*;
use vstd::string::StringExecFns;

use crate::errors::{ErrorHandle, StoreServiceError};
use crate::executor::{
    envelope_payload, execute, execute_failure, outcome_body, request_url, unwrap_envelope, url_text, HttpOutcome,
    BASE,
};
use crate::json::{as_u32, find_member, lemma_get_field_at, member, read_u32, Json};
use crate::query::{encode_query, params_model, query_text, Param, ParamModel, ParamValue, ValueModel};
use crate::Steam;

verus! {

pub const INTERFACE: &'static str = "IStoreService";

pub const ENDPOINT: &'static str = "GetAppList";

pub const VERSION: &'static str = "1";

/// One application of the store.
#[derive(Clone, Debug, PartialEq, Eq)]
pub struct App {
    pub appid: u32,
    pub name: String,
    pub last_modified: u32,
    pub price_change_number: u32,
}

/// A page of the store's applications.
#[derive(Clone, Debug, PartialEq, Eq)]
pub struct AppList {
    pub apps: Vec<App>,
    pub have_more_results: Option<bool>,
    pub last_appid: u32,
}

pub struct AppModel {
    pub appid: u32,
    pub name: Seq<char>,
    pub last_modified: u32,
    pub price_change_number: u32,
}

pub struct AppListModel {
    pub apps: Seq<AppModel>,
    pub have_more_results: Option<bool>,
    pub last_appid: u32,
}

impl View for App {
    type V = AppModel;

    open spec fn view(&self) -> AppModel {
        AppModel {
            appid: self.appid,
            name: self.name@,
            last_modified: self.last_modified,
            price_change_number: self.price_change_number,
        }
    }
}

impl View for AppList {
    type V = AppListModel;

    open spec fn view(&self) -> AppListModel {
        AppListModel {
            apps: self.apps@.map_values(|a: App| a@),
            have_more_results: self.have_more_results,
            last_appid: self.last_appid,
        }
    }
}

/* Decoding */

pub open spec fn opt_u32(j: Option<Json>) -> Option<u32> {
    match j {
        Some(v) => as_u32(v),
        None => None,
    }
}

pub open spec fn opt_text(j: Option<Json>) -> Option<Seq<char>> {
    match j {
        Some(Json::Str(s)) => Some(s@),
        _ => None,
    }
}

/// An optional boolean: missing or `null` is `None`.
pub open spec fn opt_bool(j: Option<Json>) -> Option<Option<bool>> {
    match j {
        None => Some(None),
        Some(Json::Null) => Some(None),
        Some(Json::Bool(b)) => Some(Some(b)),
        _ => None,
    }
}

/// An application read from an object with members `appid`, `name`,
/// `last_modified` and `price_change_number`; other members are ignored.
pub open spec fn decode_app(j: Json) -> Option<AppModel> {
    let appid = opt_u32(member(j, "appid"@));
    let name = opt_text(member(j, "name"@));
    let last_modified = opt_u32(member(j, "last_modified"@));
    let price_change_number = opt_u32(member(j, "price_change_number"@));
    if appid is Some && name is Some && last_modified is Some && price_change_number is Some {
        Some(
            AppModel {
                appid: appid->0,
                name: name->0,
                last_modified: last_modified->0,
                price_change_number: price_change_number->0,
            },
        )
    } else {
        None
    }
}

/// Every item read as an application, or `None` if one cannot be.
pub open spec fn decode_apps(items: Seq<Json>) -> Option<Seq<AppModel>>
    decreases items.len(),
{
    if items.len() == 0 {
        Some(seq![])
    } else {
        match (decode_apps(items.drop_last()), decode_app(items.last())) {
            (Some(xs), Some(x)) => Some(xs.push(x)),
            _ => None,
        }
    }
}

/// An application list read from an object with members `apps` (an array),
/// `have_more_results` (optional) and `last_appid`.
pub open spec fn decode_app_list(j: Json) -> Option<AppListModel> {
    let apps = match member(j, "apps"@) {
        Some(Json::Array(items)) => decode_apps(items@),
        _ => None,
    };
    let more = opt_bool(member(j, "have_more_results"@));
    let last = opt_u32(member(j, "last_appid"@));
    if apps is Some && more is Some && last is Some {
        Some(AppListModel { apps: apps->0, have_more_results: more->0, last_appid: last->0 })
    } else {
        None
    }
}

/// An application list read from inside its envelope.
pub open spec fn decode_envelope(j: Json) -> Option<AppListModel> {
    match envelope_payload(j) {
        Some(p) => decode_app_list(p),
        None => None,
    }
}

/* Encoding */

/// `j` is the object `{"appid", "name", "last_modified", "price_change_number"}` of `a`.
pub open spec fn app_encoded(j: Json, a: AppModel) -> bool {
    match j {
        Json::Object(fs) => {
            &&& fs@.len() == 4
            &&& fs@[0].0@ == "appid"@ && fs@[0].1 == Json::UInt(a.appid as u64)
            &&& fs@[1].0@ == "name"@
            &&& fs@[1].1 matches Json::Str(s) && s@ == a.name
            &&& fs@[2].0@ == "last_modified"@ && fs@[2].1 == Json::UInt(a.last_modified as u64)
            &&& fs@[3].0@ == "price_change_number"@ && fs@[3].1 == Json::UInt(
                a.price_change_number as u64,
            )
        },
        _ => false,
    }
}

/// `j` is the object `{"apps", "have_more_results", "last_appid"}` of `p`,
/// an absent `have_more_results` written as `null`.
pub open spec fn app_list_encoded(j: Json, p: AppListModel) -> bool {
    match j {
        Json::Object(fs) => {
            &&& fs@.len() == 3
            &&& fs@[0].0@ == "apps"@
            &&& fs@[0].1 matches Json::Array(items) && items@.len() == p.apps.len() && (forall|i: int|
                0 <= i < items@.len() ==> app_encoded(#[trigger] items@[i], p.apps[i]))
            &&& fs@[1].0@ == "have_more_results"@
            &&& fs@[1].1 == match p.have_more_results {
                Some(b) => Json::Bool(b),
                None => Json::Null,
            }
            &&& fs@[2].0@ == "last_appid"@ && fs@[2].1 == Json::UInt(p.last_appid as u64)
        },
        _ => false,
    }
}

/// `j` is `{"response": ...}` around the encoding of `p`.
pub open spec fn envelope_encoded(j: Json, p: AppListModel) -> bool {
    match j {
        Json::Object(fs) => fs@.len() == 1 && fs@[0].0@ == "response"@ && app_list_encoded(
            fs@[0].1,
            p,
        ),
        _ => false,
    }
}

/* The endpoint's parameters */

pub open spec fn int_value(v: Option<u32>) -> Option<ValueModel> {
    match v {
        Some(n) => Some(ValueModel::Int(n as nat)),
        None => None,
    }
}

pub open spec fn bool_value(v: Option<bool>) -> Option<ValueModel> {
    match v {
        Some(b) => Some(ValueModel::Bool(b)),
        None => None,
    }
}

pub open spec fn text_value(v: Option<String>) -> Option<ValueModel> {
    match v {
        Some(s) => Some(ValueModel::Text(s@)),
        None => None,
    }
}

pub open spec fn named(name: &str, value: Option<ValueModel>) -> ParamModel {
    ParamModel { name: name@, value }
}

/// The parameters of `GetAppList`, in request order.
pub open spec fn app_list_params(
    if_modified_since: Option<u32>,
    have_description_language: Option<String>,
    include_games: Option<bool>,
    include_dlc: Option<bool>,
    include_software: Option<bool>,
    include_videos: Option<bool>,
    include_hardware: Option<bool>,
    last_appid: Option<u32>,
    max_results: Option<u32>,
) -> Seq<ParamModel> {
    seq![
        named("if_modified_since", int_value(if_modified_since)),
        named("have_description_language", text_value(have_description_language)),
        named("include_games", bool_value(include_games)),
        named("include_dlc", bool_value(include_dlc)),
        named("include_software", bool_value(include_software)),
        named("include_videos", bool_value(include_videos)),
        named("include_hardware", bool_value(include_hardware)),
        named("last_appid", int_value(last_appid)),
        named("max_results", int_value(max_results)),
    ]
}

/* Reading the payload */

fn read_opt_u32(j: Option<&Json>) -> (r: Option<u32>)
    ensures
        r == opt_u32(match j {
            Some(v) => Some(*v),
            None => None,
        }),
{
    match j {
        Some(v) => read_u32(v),
        None => None,
    }
}

fn read_opt_text(j: Option<&Json>) -> (r: Option<String>)
    ensures
        match r {
            Some(t) => opt_text(match j {
                Some(v) => Some(*v),
                None => None,
            }) == Some(t@),
            None => opt_text(match j {
                Some(v) => Some(*v),
                None => None,
            }) is None,
        },
{
    match j {
        Some(Json::Str(t)) => Some(t.clone()),
        _ => None,
    }
}

fn read_opt_bool(j: Option<&Json>) -> (r: Option<Option<bool>>)
    ensures
        r == opt_bool(match j {
            Some(v) => Some(*v),
            None => None,
        }),
{
    match j {
        None => Some(None),
        Some(Json::Null) => Some(None),
        Some(Json::Bool(b)) => Some(Some(*b)),
        _ => None,
    }
}

/// Reads one application.
pub fn read_app(j: &Json) -> (r: Option<App>)
    ensures
        match r {
            Some(a) => decode_app(*j) == Some(a@),
            None => decode_app(*j) is None,
        },
{
    let appid = read_opt_u32(find_member(j, "appid"));
    let name = read_opt_text(find_member(j, "name"));
    let last_modified = read_opt_u32(find_member(j, "last_modified"));
    let price_change_number = read_opt_u32(find_member(j, "price_change_number"));
    match (appid, name, last_modified, price_change_number) {
        (Some(appid), Some(name), Some(last_modified), Some(price_change_number)) => Some(
            App { appid, name, last_modified, price_change_number },
        ),
        _ => None,
    }
}

/// Reads every item as an application.
pub fn read_apps(items: &Vec<Json>) -> (r: Option<Vec<App>>)
    ensures
        match r {
            Some(v) => decode_apps(items@) == Some(v@.map_values(|a: App| a@)),
            None => decode_apps(items@) is None,
        },
{
    let mut out: Vec<App> = Vec::new();
    let mut i: usize = 0;
    assert(out@.map_values(|a: App| a@) =~= seq![]);
    while i < items.len()
        invariant
            i <= items@.len(),
            decode_apps(items@.take(i as int)) == Some(out@.map_values(|a: App| a@)),
        decreases items@.len() - i,
    {
        let ghost t = items@.take(i + 1);
        assert(t.drop_last() =~= items@.take(i as int));
        match read_app(&items[i]) {
            Some(a) => {
                let ghost before = out@;
                out.push(a);
                assert(out@.map_values(|a: App| a@) =~= before.map_values(|a: App| a@).push(a@));
            },
            None => {
                proof {
                    lemma_decode_apps_prefix_fails(items@, i as int);
                }
                return None;
            },
        }
        i += 1;
    }
    assert(items@.take(i as int) =~= items@);
    Some(out)
}

/// Once an item cannot be read, the whole list cannot be.
proof fn lemma_decode_apps_prefix_fails(items: Seq<Json>, i: int)
    requires
        0 <= i < items.len(),
        decode_app(items[i]) is None,
    ensures
        decode_apps(items) is None,
    decreases items.len(),
{
    if i < items.len() - 1 {
        lemma_decode_apps_prefix_fails(items.drop_last(), i);
    }
}

/// Reads an application list from its payload object.
pub fn read_app_list(j: &Json) -> (r: Option<AppList>)
    ensures
        match r {
            Some(l) => decode_app_list(*j) == Some(l@),
            None => decode_app_list(*j) is None,
        },
{
    let apps = match find_member(j, "apps") {
        Some(Json::Array(items)) => read_apps(items),
        _ => None,
    };
    let more = read_opt_bool(find_member(j, "have_more_results"));
    let last = read_opt_u32(find_member(j, "last_appid"));
    match (apps, more, last) {
        (Some(apps), Some(have_more_results), Some(last_appid)) => Some(
            AppList { apps, have_more_results, last_appid },
        ),
        _ => None,
    }
}

/// Unwraps an envelope and reads the application list inside it; any
/// mismatch is a deserialization failure.
pub fn app_list_from_envelope(j: Json) -> (r: Result<AppList, ErrorHandle>)
    ensures
        match decode_envelope(j) {
            Some(p) => r matches Ok(l) && l@ == p,
            None => r matches Err(ErrorHandle::Deserialization(_)),
        },
{
    match unwrap_envelope(j) {
        Ok(payload) => match read_app_list(&payload) {
            Some(l) => Ok(l),
            None => Err(ErrorHandle::Deserialization(String::from_str("invalid type: expected an app list"))),
        },
        Err(e) => Err(e),
    }
}

/* Writing the payload */

/// The JSON object of one application.
pub fn app_to_json(a: &App) -> (r: Json)
    ensures
        app_encoded(r, a@),
{
    let mut fs: Vec<(String, Json)> = Vec::new();
    fs.push((String::from_str("appid"), Json::UInt(a.appid as u64)));
    fs.push((String::from_str("name"), Json::Str(a.name.clone())));
    fs.push((String::from_str("last_modified"), Json::UInt(a.last_modified as u64)));
    fs.push((String::from_str("price_change_number"), Json::UInt(a.price_change_number as u64)));
    Json::Object(fs)
}

/// The JSON object of an application list; an absent `have_more_results`
/// is written as `null`.
pub fn app_list_to_json(l: &AppList) -> (r: Json)
    ensures
        app_list_encoded(r, l@),
{
    let mut items: Vec<Json> = Vec::new();
    let mut i: usize = 0;
    while i < l.apps.len()
        invariant
            i <= l.apps@.len(),
            items@.len() == i,
            forall|k: int| 0 <= k < i ==> app_encoded(#[trigger] items@[k], l.apps@[k]@),
        decreases l.apps@.len() - i,
    {
        items.push(app_to_json(&l.apps[i]));
        i += 1;
    }
    let more = match l.have_more_results {
        Some(b) => Json::Bool(b),
        None => Json::Null,
    };
    let mut fs: Vec<(String, Json)> = Vec::new();
    fs.push((String::from_str("apps"), Json::Array(items)));
    fs.push((String::from_str("have_more_results"), more));
    fs.push((String::from_str("last_appid"), Json::UInt(l.last_appid as u64)));
    Json::Object(fs)
}

/// The envelope `{"response": ...}` around an application list.
pub fn app_list_to_envelope(l: &AppList) -> (r: Json)
    ensures
        envelope_encoded(r, l@),
{
    let mut fs: Vec<(String, Json)> = Vec::new();
    fs.push((String::from_str("response"), app_list_to_json(l)));
    Json::Object(fs)
}

proof fn lemma_app_round_trip(j: Json, a: AppModel)
    requires
        app_encoded(j, a),
    ensures
        decode_app(j) == Some(a),
{
    reveal_strlit("appid");
    reveal_strlit("name");
    reveal_strlit("last_modified");
    reveal_strlit("price_change_number");
    let fs = j->Object_0@;
    assert(fs[0].0@.len() == 5 && fs[1].0@.len() == 4 && fs[2].0@.len() == 13 && fs[3].0@.len()
        == 19);
    lemma_get_field_at(fs, "appid"@, 0);
    lemma_get_field_at(fs, "name"@, 1);
    lemma_get_field_at(fs, "last_modified"@, 2);
    lemma_get_field_at(fs, "price_change_number"@, 3);
}

proof fn lemma_apps_round_trip(items: Seq<Json>, apps: Seq<AppModel>)
    requires
        items.len() == apps.len(),
        forall|k: int| 0 <= k < items.len() ==> app_encoded(#[trigger] items[k], apps[k]),
    ensures
        decode_apps(items) == Some(apps),
    decreases items.len(),
{
    if items.len() == 0 {
        assert(apps =~= seq![]);
    } else {
        let n = items.len() - 1;
        assert forall|k: int| 0 <= k < n implies app_encoded(#[trigger] items.drop_last()[k], apps.drop_last()[k]) by {
            assert(items.drop_last()[k] == items[k]);
        }
        lemma_apps_round_trip(items.drop_last(), apps.drop_last());
        assert(app_encoded(items[n], apps[n]));
        lemma_app_round_trip(items.last(), apps.last());
        assert(apps.drop_last().push(apps.last()) =~= apps);
    }
}

/// Reading back the JSON written for an application list, through the
/// envelope, gives the same list.
pub proof fn lemma_envelope_round_trip(j: Json, p: AppListModel)
    requires
        envelope_encoded(j, p),
    ensures
        decode_envelope(j) == Some(p),
{
    reveal_strlit("response");
    reveal_strlit("apps");
    reveal_strlit("have_more_results");
    reveal_strlit("last_appid");
    let payload = j->Object_0@[0].1;
    assert(envelope_payload(j) == Some(payload));
    let fs = payload->Object_0@;
    assert(fs[0].0@.len() == 4 && fs[1].0@.len() == 17 && fs[2].0@.len() == 10);
    lemma_get_field_at(fs, "apps"@, 0);
    lemma_get_field_at(fs, "have_more_results"@, 1);
    lemma_get_field_at(fs, "last_appid"@, 2);
    lemma_apps_round_trip(fs[0].1->Array_0@, p.apps);
}

/* The endpoint */

fn int_param(name: &str, v: Option<u32>) -> (r: Param)
    ensures
        r@ == named(name, int_value(v)),
{
    Param {
        name: String::from_str(name),
        value: match v {
            Some(n) => Some(ParamValue::Int(n as u64)),
            None => None,
        },
    }
}

fn bool_param(name: &str, v: Option<bool>) -> (r: Param)
    ensures
        r@ == named(name, bool_value(v)),
{
    Param {
        name: String::from_str(name),
        value: match v {
            Some(b) => Some(ParamValue::Bool(b)),
            None => None,
        },
    }
}

fn text_param(name: &str, v: Option<String>) -> (r: Param)
    ensures
        r@ == named(name, text_value(v)),
{
    Param {
        name: String::from_str(name),
        value: match v {
            Some(t) => Some(ParamValue::Text(t)),
            None => None,
        },
    }
}

impl Steam {
    /// The query string of `GetAppList`: the key, then each present
    /// parameter in declaration order.
    pub fn store_app_list_query(
        &self,
        if_modified_since: Option<u32>,
        have_description_language: Option<String>,
        include_games: Option<bool>,
        include_dlc: Option<bool>,
        include_software: Option<bool>,
        include_videos: Option<bool>,
        include_hardware: Option<bool>,
        last_appid: Option<u32>,
        max_results: Option<u32>,
    ) -> (r: String)
        ensures
            r@ == query_text(
                self.api_key@,
                app_list_params(
                    if_modified_since,
                    have_description_language,
                    include_games,
                    include_dlc,
                    include_software,
                    include_videos,
                    include_hardware,
                    last_appid,
                    max_results,
                ),
            ),
    {
        let ghost expected = app_list_params(
            if_modified_since,
            have_description_language,
            include_games,
            include_dlc,
            include_software,
            include_videos,
            include_hardware,
            last_appid,
            max_results,
        );
        let mut params: Vec<Param> = Vec::new();
        params.push(int_param("if_modified_since", if_modified_since));
        params.push(text_param("have_description_language", have_description_language));
        params.push(bool_param("include_games", include_games));
        params.push(bool_param("include_dlc", include_dlc));
        params.push(bool_param("include_software", include_software));
        params.push(bool_param("include_videos", include_videos));
        params.push(bool_param("include_hardware", include_hardware));
        params.push(int_param("last_appid", last_appid));
        params.push(int_param("max_results", max_results));
        assert(params_model(params@) =~= expected);
        encode_query(self.api_key.as_str(), &params)
    }

    /// The full request URL of `GetAppList`.
    pub fn store_app_list_url(
        &self,
        if_modified_since: Option<u32>,
        have_description_language: Option<String>,
        include_games: Option<bool>,
        include_dlc: Option<bool>,
        include_software: Option<bool>,
        include_videos: Option<bool>,
        include_hardware: Option<bool>,
        last_appid: Option<u32>,
        max_results: Option<u32>,
    ) -> (r: String)
        ensures
            r@ == url_text(
                BASE@,
                INTERFACE@,
                ENDPOINT@,
                VERSION@,
                query_text(
                    self.api_key@,
                    app_list_params(
                        if_modified_since,
                        have_description_language,
                        include_games,
                        include_dlc,
                        include_software,
                        include_videos,
                        include_hardware,
                        last_appid,
                        max_results,
                    ),
                ),
            ),
    {
        let query = self.store_app_list_query(
            if_modified_since,
            have_description_language,
            include_games,
            include_dlc,
            include_software,
            include_videos,
            include_hardware,
            last_appid,
            max_results,
        );
        request_url(BASE, INTERFACE, ENDPOINT, VERSION, query.as_str())
    }

    /// The result of `GetAppList` from the outcome of its request: the
    /// application list inside the envelope, or the failure tagged
    /// `GetAppList`.
    pub fn finish_store_app_list(outcome: HttpOutcome) -> (r: Result<AppList, StoreServiceError>)
        ensures
            match outcome_body(outcome) {
                None => r matches Err(StoreServiceError::GetAppList(e)) && execute_failure(outcome, e),
                Some(j) => match decode_envelope(j) {
                    Some(p) => r matches Ok(l) && l@ == p,
                    None => r matches Err(StoreServiceError::GetAppList(ErrorHandle::Deserialization(_))),
                },
            },
    {
        match execute(outcome) {
            Ok(j) => match app_list_from_envelope(j) {
                Ok(l) => Ok(l),
                Err(e) => Err(e.into_get_app_list()),
            },
            Err(e) => Err(e.into_get_app_list()),
        }
    }
}

} // verus!
