//! Typed decoding of the two response bodies: a creator profile, and a
//! page of projects. Objects are walked member by member; known members
//! fill an accumulator, unknown ones are skipped, and a member named
//! twice keeps its last value. A document is accepted only when every
//! required member is present and nothing but whitespace follows it.

use vstd::prelude::*;
use vstd::string::StringExecFns;
use vstd::string::StrSliceExecFns;
use crate::model::Creator;
use crate::model::CreatorV;
use crate::model::PageInfo;
use crate::model::Project;
use crate::model::ProjectV;
use crate::model::ProjectsResponse;
use crate::model::ProjectsResponseV;
use crate::parse::val_rel;
use crate::parse::opt_rel;
use crate::parse::spec_skip_ws;
use crate::parse::spec_parse_string;
use crate::parse::spec_parse_strval;
use crate::parse::spec_parse_number;
use crate::parse::spec_parse_u32;
use crate::parse::spec_parse_bool;
use crate::parse::spec_skip_value;
use crate::parse::skip_ws;
use crate::parse::parse_string_body;
use crate::parse::parse_strval;
use crate::parse::parse_number;
use crate::parse::parse_u32val;
use crate::parse::parse_bool;
use crate::parse::skip_value;

verus! {

/// What has been gathered so far while walking a creator object.
pub struct CreatorAcc {
    pub basename: Option<String>,
    pub display_name: Option<String>,
    pub bio: Option<String>,
    pub avatar_url: Option<String>,
    pub total_tips_received: Option<String>,
    pub tip_count: Option<u32>,
    pub is_active: Option<bool>,
    pub created_at: Option<u64>,
}

pub struct CreatorAccV {
    pub basename: Option<Seq<char>>,
    pub display_name: Option<Seq<char>>,
    pub bio: Option<Seq<char>>,
    pub avatar_url: Option<Seq<char>>,
    pub total_tips_received: Option<Seq<char>>,
    pub tip_count: Option<u32>,
    pub is_active: Option<bool>,
    pub created_at: Option<u64>,
}

pub open spec fn view_opt_str(o: Option<String>) -> Option<Seq<char>> {
    match o {
        Some(x) => Some(x@),
        None => None,
    }
}

impl View for CreatorAcc {
    type V = CreatorAccV;

    open spec fn view(&self) -> CreatorAccV {
        CreatorAccV {
            basename: view_opt_str(self.basename),
            display_name: view_opt_str(self.display_name),
            bio: view_opt_str(self.bio),
            avatar_url: view_opt_str(self.avatar_url),
            total_tips_received: view_opt_str(self.total_tips_received),
            tip_count: self.tip_count,
            is_active: self.is_active,
            created_at: self.created_at,
        }
    }
}

pub open spec fn cacc_empty() -> CreatorAccV {
    CreatorAccV {
        basename: None,
        display_name: None,
        bio: None,
        avatar_url: None,
        total_tips_received: None,
        tip_count: None,
        is_active: None,
        created_at: None,
    }
}

/// How one creator member, named by `key` with its value at `w`, changes
/// the accumulator.
pub open spec fn spec_creator_field_value(
    s: Seq<char>,
    w: int,
    key: Seq<char>,
    acc: CreatorAccV,
) -> Option<(CreatorAccV, int)> {
    if key == "basename"@ {
        match spec_parse_strval(s, w) {
            Some((x, v)) => Some((CreatorAccV { basename: Some(x), ..acc }, v)),
            None => None,
        }
    } else if key == "display_name"@ {
        match spec_parse_strval(s, w) {
            Some((x, v)) => Some((CreatorAccV { display_name: Some(x), ..acc }, v)),
            None => None,
        }
    } else if key == "bio"@ {
        match spec_parse_strval(s, w) {
            Some((x, v)) => Some((CreatorAccV { bio: Some(x), ..acc }, v)),
            None => None,
        }
    } else if key == "avatar_url"@ {
        match spec_parse_strval(s, w) {
            Some((x, v)) => Some((CreatorAccV { avatar_url: Some(x), ..acc }, v)),
            None => None,
        }
    } else if key == "total_tips_received"@ {
        match spec_parse_strval(s, w) {
            Some((x, v)) => Some((CreatorAccV { total_tips_received: Some(x), ..acc }, v)),
            None => None,
        }
    } else if key == "tip_count"@ {
        match spec_parse_u32(s, w) {
            Some((x, v)) => Some((CreatorAccV { tip_count: Some(x), ..acc }, v)),
            None => None,
        }
    } else if key == "is_active"@ {
        match spec_parse_bool(s, w) {
            Some((x, v)) => Some((CreatorAccV { is_active: Some(x), ..acc }, v)),
            None => None,
        }
    } else if key == "created_at"@ {
        match spec_parse_number(s, w) {
            Some((x, v)) => Some((CreatorAccV { created_at: Some(x), ..acc }, v)),
            None => None,
        }
    } else {
        match spec_skip_value(s, w) {
            Some(v) => Some((acc, v)),
            None => None,
        }
    }
}

fn creator_field_value(s: &str, w: usize, key: &String, acc: CreatorAcc) -> (r: Option<
    (CreatorAcc, usize),
>)
    requires
        w <= s@.len(),
    ensures
        val_rel(r, spec_creator_field_value(s@, w as int, key@, acc@)),
        r matches Some(p) ==> w < p.1 <= s@.len(),
{
    if *key == String::from_str("basename") {
        match parse_strval(s, w) {
            Some((x, v)) => Some((CreatorAcc { basename: Some(x), ..acc }, v)),
            None => None,
        }
    } else if *key == String::from_str("display_name") {
        match parse_strval(s, w) {
            Some((x, v)) => Some((CreatorAcc { display_name: Some(x), ..acc }, v)),
            None => None,
        }
    } else if *key == String::from_str("bio") {
        match parse_strval(s, w) {
            Some((x, v)) => Some((CreatorAcc { bio: Some(x), ..acc }, v)),
            None => None,
        }
    } else if *key == String::from_str("avatar_url") {
        match parse_strval(s, w) {
            Some((x, v)) => Some((CreatorAcc { avatar_url: Some(x), ..acc }, v)),
            None => None,
        }
    } else if *key == String::from_str("total_tips_received") {
        match parse_strval(s, w) {
            Some((x, v)) => Some((CreatorAcc { total_tips_received: Some(x), ..acc }, v)),
            None => None,
        }
    } else if *key == String::from_str("tip_count") {
        match parse_u32val(s, w) {
            Some((x, v)) => Some((CreatorAcc { tip_count: Some(x), ..acc }, v)),
            None => None,
        }
    } else if *key == String::from_str("is_active") {
        match parse_bool(s, w) {
            Some((x, v)) => Some((CreatorAcc { is_active: Some(x), ..acc }, v)),
            None => None,
        }
    } else if *key == String::from_str("created_at") {
        match parse_number(s, w) {
            Some((x, v)) => Some((CreatorAcc { created_at: Some(x), ..acc }, v)),
            None => None,
        }
    } else {
        match skip_value(s, w) {
            Some(v) => Some((acc, v)),
            None => None,
        }
    }
}

/// The members of a creator object, entered just after `{` or `,`.
pub open spec fn spec_creator_fields(s: Seq<char>, i: int, acc: CreatorAccV) -> Option<
    (CreatorAccV, int),
>
    decreases s.len() - i,
{
    let j = spec_skip_ws(s, i);
    if !(i <= j && j < s.len()) {
        None
    } else if s[j] == '}' {
        Some((acc, j + 1))
    } else if s[j] == '"' {
        match spec_parse_string(s, j + 1) {
            Some((key, k)) => if !(j + 1 < k && k <= s.len()) {
                None
            } else {
                let k2 = spec_skip_ws(s, k);
                if !(k <= k2 && k2 < s.len() && s[k2] == ':') {
                    None
                } else {
                    let w = spec_skip_ws(s, k2 + 1);
                    if !(k2 + 1 <= w && w <= s.len()) {
                        None
                    } else {
                        match spec_creator_field_value(s, w, key, acc) {
                            Some((acc2, v)) => if !(w < v && v <= s.len()) {
                                None
                            } else {
                                let t = spec_skip_ws(s, v);
                                if !(v <= t && t < s.len()) {
                                    None
                                } else if s[t] == ',' {
                                    spec_creator_fields(s, t + 1, acc2)
                                } else if s[t] == '}' {
                                    Some((acc2, t + 1))
                                } else {
                                    None
                                }
                            },
                            None => None,
                        }
                    }
                }
            },
            None => None,
        }
    } else {
        None
    }
}

fn creator_fields(s: &str, i: usize, acc: CreatorAcc) -> (r: Option<(CreatorAcc, usize)>)
    requires
        i <= s@.len(),
    ensures
        val_rel(r, spec_creator_fields(s@, i as int, acc@)),
        r matches Some(p) ==> i < p.1 <= s@.len(),
    decreases s@.len() - i,
{
    let n = s.unicode_len();
    let j = skip_ws(s, i);
    if j >= n {
        None
    } else {
        let cj = s.get_char(j);
        if cj == '}' {
            Some((acc, j + 1))
        } else if cj == '"' {
            match parse_string_body(s, j + 1) {
                Some((key, k)) => {
                    let k2 = skip_ws(s, k);
                    if k2 >= n || s.get_char(k2) != ':' {
                        None
                    } else {
                        let w = skip_ws(s, k2 + 1);
                        match creator_field_value(s, w, &key, acc) {
                            Some((acc2, v)) => {
                                let t = skip_ws(s, v);
                                if t >= n {
                                    None
                                } else if s.get_char(t) == ',' {
                                    creator_fields(s, t + 1, acc2)
                                } else if s.get_char(t) == '}' {
                                    Some((acc2, t + 1))
                                } else {
                                    None
                                }
                            },
                            None => None,
                        }
                    }
                },
                None => None,
            }
        } else {
            None
        }
    }
}

/// The creator a fully gathered accumulator denotes, if every required
/// member was present.
pub open spec fn spec_creator_of_acc(acc: CreatorAccV) -> Option<CreatorV> {
    if acc.basename is Some && acc.display_name is Some && acc.bio is Some && acc.avatar_url
        is Some && acc.total_tips_received is Some && acc.tip_count is Some && acc.is_active
        is Some && acc.created_at is Some {
        Some(
            CreatorV {
                basename: acc.basename.unwrap(),
                display_name: acc.display_name.unwrap(),
                bio: acc.bio.unwrap(),
                avatar_url: acc.avatar_url.unwrap(),
                total_tips_received: acc.total_tips_received.unwrap(),
                tip_count: acc.tip_count.unwrap(),
                is_active: acc.is_active.unwrap(),
                created_at: acc.created_at.unwrap(),
            },
        )
    } else {
        None
    }
}

/// The creator profile a whole document denotes: one object, all eight
/// members present, nothing but whitespace around it.
pub open spec fn spec_parse_creator(s: Seq<char>) -> Option<CreatorV> {
    let w = spec_skip_ws(s, 0);
    if !(0 <= w && w < s.len() && s[w] == '{') {
        None
    } else {
        match spec_creator_fields(s, w + 1, cacc_empty()) {
            Some((acc, v)) => if spec_skip_ws(s, v) == s.len() {
                spec_creator_of_acc(acc)
            } else {
                None
            },
            None => None,
        }
    }
}

/// Decodes a whole document as a creator profile.
pub fn parse_creator(s: &str) -> (r: Option<Creator>)
    ensures
        opt_rel(r, spec_parse_creator(s@)),
{
    let n = s.unicode_len();
    let w = skip_ws(s, 0);
    if w >= n || s.get_char(w) != '{' {
        None
    } else {
        let acc0 = CreatorAcc {
            basename: None,
            display_name: None,
            bio: None,
            avatar_url: None,
            total_tips_received: None,
            tip_count: None,
            is_active: None,
            created_at: None,
        };
        match creator_fields(s, w + 1, acc0) {
            Some((acc, v)) => {
                let t = skip_ws(s, v);
                if t == n {
                    match (acc.basename, acc.display_name, acc.bio, acc.avatar_url,
                    acc.total_tips_received, acc.tip_count, acc.is_active, acc.created_at) {
                        (
                            Some(basename),
                            Some(display_name),
                            Some(bio),
                            Some(avatar_url),
                            Some(total_tips_received),
                            Some(tip_count),
                            Some(is_active),
                            Some(created_at),
                        ) => Some(
                            Creator {
                                basename,
                                display_name,
                                bio,
                                avatar_url,
                                total_tips_received,
                                tip_count,
                                is_active,
                                created_at,
                            },
                        ),
                        _ => None,
                    }
                } else {
                    None
                }
            },
            None => None,
        }
    }
}

/// What has been gathered so far while walking a project object.
pub struct ProjectAcc {
    pub uid: Option<String>,
    pub title: Option<String>,
    pub description: Option<String>,
    pub recipient: Option<String>,
    pub slug: Option<String>,
    pub created_at: Option<String>,
    pub updated_at: Option<String>,
}

pub struct ProjectAccV {
    pub uid: Option<Seq<char>>,
    pub title: Option<Seq<char>>,
    pub description: Option<Seq<char>>,
    pub recipient: Option<Seq<char>>,
    pub slug: Option<Seq<char>>,
    pub created_at: Option<Seq<char>>,
    pub updated_at: Option<Seq<char>>,
}

impl View for ProjectAcc {
    type V = ProjectAccV;

    open spec fn view(&self) -> ProjectAccV {
        ProjectAccV {
            uid: view_opt_str(self.uid),
            title: view_opt_str(self.title),
            description: view_opt_str(self.description),
            recipient: view_opt_str(self.recipient),
            slug: view_opt_str(self.slug),
            created_at: view_opt_str(self.created_at),
            updated_at: view_opt_str(self.updated_at),
        }
    }
}

pub open spec fn pacc_empty() -> ProjectAccV {
    ProjectAccV {
        uid: None,
        title: None,
        description: None,
        recipient: None,
        slug: None,
        created_at: None,
        updated_at: None,
    }
}

/// How one project member, named by `key` with its value at `w`, changes
/// the accumulator.
pub open spec fn spec_project_field_value(
    s: Seq<char>,
    w: int,
    key: Seq<char>,
    acc: ProjectAccV,
) -> Option<(ProjectAccV, int)> {
    if key == "uid"@ {
        match spec_parse_strval(s, w) {
            Some((x, v)) => Some((ProjectAccV { uid: Some(x), ..acc }, v)),
            None => None,
        }
    } else if key == "title"@ {
        match spec_parse_strval(s, w) {
            Some((x, v)) => Some((ProjectAccV { title: Some(x), ..acc }, v)),
            None => None,
        }
    } else if key == "description"@ {
        match spec_parse_strval(s, w) {
            Some((x, v)) => Some((ProjectAccV { description: Some(x), ..acc }, v)),
            None => None,
        }
    } else if key == "recipient"@ {
        match spec_parse_strval(s, w) {
            Some((x, v)) => Some((ProjectAccV { recipient: Some(x), ..acc }, v)),
            None => None,
        }
    } else if key == "slug"@ {
        match spec_parse_strval(s, w) {
            Some((x, v)) => Some((ProjectAccV { slug: Some(x), ..acc }, v)),
            None => None,
        }
    } else if key == "created_at"@ {
        match spec_parse_strval(s, w) {
            Some((x, v)) => Some((ProjectAccV { created_at: Some(x), ..acc }, v)),
            None => None,
        }
    } else if key == "updated_at"@ {
        match spec_parse_strval(s, w) {
            Some((x, v)) => Some((ProjectAccV { updated_at: Some(x), ..acc }, v)),
            None => None,
        }
    } else {
        match spec_skip_value(s, w) {
            Some(v) => Some((acc, v)),
            None => None,
        }
    }
}

fn project_field_value(s: &str, w: usize, key: &String, acc: ProjectAcc) -> (r: Option<
    (ProjectAcc, usize),
>)
    requires
        w <= s@.len(),
    ensures
        val_rel(r, spec_project_field_value(s@, w as int, key@, acc@)),
        r matches Some(p) ==> w < p.1 <= s@.len(),
{
    if *key == String::from_str("uid") {
        match parse_strval(s, w) {
            Some((x, v)) => Some((ProjectAcc { uid: Some(x), ..acc }, v)),
            None => None,
        }
    } else if *key == String::from_str("title") {
        match parse_strval(s, w) {
            Some((x, v)) => Some((ProjectAcc { title: Some(x), ..acc }, v)),
            None => None,
        }
    } else if *key == String::from_str("description") {
        match parse_strval(s, w) {
            Some((x, v)) => Some((ProjectAcc { description: Some(x), ..acc }, v)),
            None => None,
        }
    } else if *key == String::from_str("recipient") {
        match parse_strval(s, w) {
            Some((x, v)) => Some((ProjectAcc { recipient: Some(x), ..acc }, v)),
            None => None,
        }
    } else if *key == String::from_str("slug") {
        match parse_strval(s, w) {
            Some((x, v)) => Some((ProjectAcc { slug: Some(x), ..acc }, v)),
            None => None,
        }
    } else if *key == String::from_str("created_at") {
        match parse_strval(s, w) {
            Some((x, v)) => Some((ProjectAcc { created_at: Some(x), ..acc }, v)),
            None => None,
        }
    } else if *key == String::from_str("updated_at") {
        match parse_strval(s, w) {
            Some((x, v)) => Some((ProjectAcc { updated_at: Some(x), ..acc }, v)),
            None => None,
        }
    } else {
        match skip_value(s, w) {
            Some(v) => Some((acc, v)),
            None => None,
        }
    }
}

/// The members of a project object, entered just after `{` or `,`.
pub open spec fn spec_project_fields(s: Seq<char>, i: int, acc: ProjectAccV) -> Option<
    (ProjectAccV, int),
>
    decreases s.len() - i,
{
    let j = spec_skip_ws(s, i);
    if !(i <= j && j < s.len()) {
        None
    } else if s[j] == '}' {
        Some((acc, j + 1))
    } else if s[j] == '"' {
        match spec_parse_string(s, j + 1) {
            Some((key, k)) => if !(j + 1 < k && k <= s.len()) {
                None
            } else {
                let k2 = spec_skip_ws(s, k);
                if !(k <= k2 && k2 < s.len() && s[k2] == ':') {
                    None
                } else {
                    let w = spec_skip_ws(s, k2 + 1);
                    if !(k2 + 1 <= w && w <= s.len()) {
                        None
                    } else {
                        match spec_project_field_value(s, w, key, acc) {
                            Some((acc2, v)) => if !(w < v && v <= s.len()) {
                                None
                            } else {
                                let t = spec_skip_ws(s, v);
                                if !(v <= t && t < s.len()) {
                                    None
                                } else if s[t] == ',' {
                                    spec_project_fields(s, t + 1, acc2)
                                } else if s[t] == '}' {
                                    Some((acc2, t + 1))
                                } else {
                                    None
                                }
                            },
                            None => None,
                        }
                    }
                }
            },
            None => None,
        }
    } else {
        None
    }
}

fn project_fields(s: &str, i: usize, acc: ProjectAcc) -> (r: Option<(ProjectAcc, usize)>)
    requires
        i <= s@.len(),
    ensures
        val_rel(r, spec_project_fields(s@, i as int, acc@)),
        r matches Some(p) ==> i < p.1 <= s@.len(),
    decreases s@.len() - i,
{
    let n = s.unicode_len();
    let j = skip_ws(s, i);
    if j >= n {
        None
    } else {
        let cj = s.get_char(j);
        if cj == '}' {
            Some((acc, j + 1))
        } else if cj == '"' {
            match parse_string_body(s, j + 1) {
                Some((key, k)) => {
                    let k2 = skip_ws(s, k);
                    if k2 >= n || s.get_char(k2) != ':' {
                        None
                    } else {
                        let w = skip_ws(s, k2 + 1);
                        match project_field_value(s, w, &key, acc) {
                            Some((acc2, v)) => {
                                let t = skip_ws(s, v);
                                if t >= n {
                                    None
                                } else if s.get_char(t) == ',' {
                                    project_fields(s, t + 1, acc2)
                                } else if s.get_char(t) == '}' {
                                    Some((acc2, t + 1))
                                } else {
                                    None
                                }
                            },
                            None => None,
                        }
                    }
                },
                None => None,
            }
        } else {
            None
        }
    }
}

/// The project a fully gathered accumulator denotes, if every required
/// member was present.
pub open spec fn spec_project_of_acc(acc: ProjectAccV) -> Option<ProjectV> {
    if acc.uid is Some && acc.title is Some && acc.description is Some && acc.recipient is Some
        && acc.slug is Some && acc.created_at is Some && acc.updated_at is Some {
        Some(
            ProjectV {
                uid: acc.uid.unwrap(),
                title: acc.title.unwrap(),
                description: acc.description.unwrap(),
                recipient: acc.recipient.unwrap(),
                slug: acc.slug.unwrap(),
                created_at: acc.created_at.unwrap(),
                updated_at: acc.updated_at.unwrap(),
            },
        )
    } else {
        None
    }
}

/// One project object, entered just after its `{`.
pub open spec fn spec_project_obj(s: Seq<char>, i: int) -> Option<(ProjectV, int)> {
    match spec_project_fields(s, i, pacc_empty()) {
        Some((acc, v)) => match spec_project_of_acc(acc) {
            Some(p) => Some((p, v)),
            None => None,
        },
        None => None,
    }
}

fn project_obj(s: &str, i: usize) -> (r: Option<(Project, usize)>)
    requires
        i <= s@.len(),
    ensures
        val_rel(r, spec_project_obj(s@, i as int)),
        r matches Some(p) ==> i < p.1 <= s@.len(),
{
    let acc0 = ProjectAcc {
        uid: None,
        title: None,
        description: None,
        recipient: None,
        slug: None,
        created_at: None,
        updated_at: None,
    };
    match project_fields(s, i, acc0) {
        Some((acc, v)) => match (acc.uid, acc.title, acc.description, acc.recipient, acc.slug,
        acc.created_at, acc.updated_at) {
            (
                Some(uid),
                Some(title),
                Some(description),
                Some(recipient),
                Some(slug),
                Some(created_at),
                Some(updated_at),
            ) => Some(
                (
                    Project {
                        uid,
                        title,
                        description,
                        recipient,
                        slug,
                        created_at,
                        updated_at,
                    },
                    v,
                ),
            ),
            _ => None,
        },
        None => None,
    }
}

/// How an executable array of projects stands for its specification
/// counterpart.
pub open spec fn parr_rel(r: Option<(Vec<Project>, usize)>, sp: Option<(Seq<ProjectV>, int)>) -> bool {
    match sp {
        Some((v, j)) => r matches Some((x, k)) && x@.map(|q: int, p: Project| p@) == v && k as int
            == j,
        None => r is None,
    }
}

/// The rest of an array of project objects, entered just after `[` or `,`.
pub open spec fn spec_projects_array(s: Seq<char>, i: int) -> Option<(Seq<ProjectV>, int)>
    decreases s.len() - i,
{
    let j = spec_skip_ws(s, i);
    if !(i <= j && j < s.len()) {
        None
    } else if s[j] == ']' {
        Some((Seq::empty(), j + 1))
    } else if s[j] == '{' {
        match spec_project_obj(s, j + 1) {
            Some((p, v)) => if !(j + 1 < v && v <= s.len()) {
                None
            } else {
                let t = spec_skip_ws(s, v);
                if !(v <= t && t < s.len()) {
                    None
                } else if s[t] == ',' {
                    match spec_projects_array(s, t + 1) {
                        Some((rest, e)) => Some((seq![p] + rest, e)),
                        None => None,
                    }
                } else if s[t] == ']' {
                    Some((seq![p], t + 1))
                } else {
                    None
                }
            },
            None => None,
        }
    } else {
        None
    }
}

fn projects_array(s: &str, i: usize) -> (r: Option<(Vec<Project>, usize)>)
    requires
        i <= s@.len(),
    ensures
        parr_rel(r, spec_projects_array(s@, i as int)),
        r matches Some(p) ==> i < p.1 <= s@.len(),
    decreases s@.len() - i,
{
    let n = s.unicode_len();
    let j = skip_ws(s, i);
    if j >= n {
        None
    } else {
        let cj = s.get_char(j);
        if cj == ']' {
            let out: Vec<Project> = Vec::new();
            proof {
                assert(out@.map(|q: int, p: Project| p@) =~= Seq::<ProjectV>::empty());
            }
            Some((out, j + 1))
        } else if cj == '{' {
            match project_obj(s, j + 1) {
                Some((p, v)) => {
                    let t = skip_ws(s, v);
                    if t >= n {
                        None
                    } else if s.get_char(t) == ',' {
                        match projects_array(s, t + 1) {
                            Some((rest, e)) => {
                                let ghost pv = p@;
                                let ghost restv = rest@;
                                let mut out: Vec<Project> = Vec::new();
                                out.push(p);
                                let mut rest_taken = rest;
                                out.append(&mut rest_taken);
                                proof {
                                    let f = |q: int, pp: Project| pp@;
                                    assert(out@ =~= seq![out@[0]] + restv);
                                    assert(out@.map(f) =~= seq![pv] + restv.map(f));
                                }
                                Some((out, e))
                            },
                            None => None,
                        }
                    } else if s.get_char(t) == ']' {
                        let ghost pv = p@;
                        let mut out: Vec<Project> = Vec::new();
                        out.push(p);
                        proof {
                            let f = |q: int, pp: Project| pp@;
                            assert(out@.map(f) =~= seq![pv]);
                        }
                        Some((out, t + 1))
                    } else {
                        None
                    }
                },
                None => None,
            }
        } else {
            None
        }
    }
}

/// What has been gathered so far while walking a page-information object.
pub struct PageAcc {
    pub total_items: Option<u32>,
    pub page: Option<u32>,
    pub page_limit: Option<u32>,
}

impl View for PageAcc {
    type V = PageAcc;

    open spec fn view(&self) -> PageAcc {
        *self
    }
}

pub open spec fn gacc_empty() -> PageAcc {
    PageAcc { total_items: None, page: None, page_limit: None }
}

/// How one page-information member, named by `key` with its value at
/// `w`, changes the accumulator.
pub open spec fn spec_page_field_value(s: Seq<char>, w: int, key: Seq<char>, acc: PageAcc) -> Option<
    (PageAcc, int),
> {
    if key == "total_items"@ {
        match spec_parse_u32(s, w) {
            Some((x, v)) => Some((PageAcc { total_items: Some(x), ..acc }, v)),
            None => None,
        }
    } else if key == "page"@ {
        match spec_parse_u32(s, w) {
            Some((x, v)) => Some((PageAcc { page: Some(x), ..acc }, v)),
            None => None,
        }
    } else if key == "page_limit"@ {
        match spec_parse_u32(s, w) {
            Some((x, v)) => Some((PageAcc { page_limit: Some(x), ..acc }, v)),
            None => None,
        }
    } else {
        match spec_skip_value(s, w) {
            Some(v) => Some((acc, v)),
            None => None,
        }
    }
}

fn page_field_value(s: &str, w: usize, key: &String, acc: PageAcc) -> (r: Option<(PageAcc, usize)>)
    requires
        w <= s@.len(),
    ensures
        val_rel(r, spec_page_field_value(s@, w as int, key@, acc@)),
        r matches Some(p) ==> w < p.1 <= s@.len(),
{
    if *key == String::from_str("total_items") {
        match parse_u32val(s, w) {
            Some((x, v)) => Some((PageAcc { total_items: Some(x), ..acc }, v)),
            None => None,
        }
    } else if *key == String::from_str("page") {
        match parse_u32val(s, w) {
            Some((x, v)) => Some((PageAcc { page: Some(x), ..acc }, v)),
            None => None,
        }
    } else if *key == String::from_str("page_limit") {
        match parse_u32val(s, w) {
            Some((x, v)) => Some((PageAcc { page_limit: Some(x), ..acc }, v)),
            None => None,
        }
    } else {
        match skip_value(s, w) {
            Some(v) => Some((acc, v)),
            None => None,
        }
    }
}

/// The members of a page-information object, entered just after `{` or
/// `,`.
pub open spec fn spec_page_fields(s: Seq<char>, i: int, acc: PageAcc) -> Option<(PageAcc, int)>
    decreases s.len() - i,
{
    let j = spec_skip_ws(s, i);
    if !(i <= j && j < s.len()) {
        None
    } else if s[j] == '}' {
        Some((acc, j + 1))
    } else if s[j] == '"' {
        match spec_parse_string(s, j + 1) {
            Some((key, k)) => if !(j + 1 < k && k <= s.len()) {
                None
            } else {
                let k2 = spec_skip_ws(s, k);
                if !(k <= k2 && k2 < s.len() && s[k2] == ':') {
                    None
                } else {
                    let w = spec_skip_ws(s, k2 + 1);
                    if !(k2 + 1 <= w && w <= s.len()) {
                        None
                    } else {
                        match spec_page_field_value(s, w, key, acc) {
                            Some((acc2, v)) => if !(w < v && v <= s.len()) {
                                None
                            } else {
                                let t = spec_skip_ws(s, v);
                                if !(v <= t && t < s.len()) {
                                    None
                                } else if s[t] == ',' {
                                    spec_page_fields(s, t + 1, acc2)
                                } else if s[t] == '}' {
                                    Some((acc2, t + 1))
                                } else {
                                    None
                                }
                            },
                            None => None,
                        }
                    }
                }
            },
            None => None,
        }
    } else {
        None
    }
}

fn page_fields(s: &str, i: usize, acc: PageAcc) -> (r: Option<(PageAcc, usize)>)
    requires
        i <= s@.len(),
    ensures
        val_rel(r, spec_page_fields(s@, i as int, acc@)),
        r matches Some(p) ==> i < p.1 <= s@.len(),
    decreases s@.len() - i,
{
    let n = s.unicode_len();
    let j = skip_ws(s, i);
    if j >= n {
        None
    } else {
        let cj = s.get_char(j);
        if cj == '}' {
            Some((acc, j + 1))
        } else if cj == '"' {
            match parse_string_body(s, j + 1) {
                Some((key, k)) => {
                    let k2 = skip_ws(s, k);
                    if k2 >= n || s.get_char(k2) != ':' {
                        None
                    } else {
                        let w = skip_ws(s, k2 + 1);
                        match page_field_value(s, w, &key, acc) {
                            Some((acc2, v)) => {
                                let t = skip_ws(s, v);
                                if t >= n {
                                    None
                                } else if s.get_char(t) == ',' {
                                    page_fields(s, t + 1, acc2)
                                } else if s.get_char(t) == '}' {
                                    Some((acc2, t + 1))
                                } else {
                                    None
                                }
                            },
                            None => None,
                        }
                    }
                },
                None => None,
            }
        } else {
            None
        }
    }
}

/// One page-information object, entered just after its `{`.
pub open spec fn spec_page_obj(s: Seq<char>, i: int) -> Option<(PageInfo, int)> {
    match spec_page_fields(s, i, gacc_empty()) {
        Some((acc, v)) => if acc.total_items is Some && acc.page is Some && acc.page_limit
            is Some {
            Some(
                (
                    PageInfo {
                        total_items: acc.total_items.unwrap(),
                        page: acc.page.unwrap(),
                        page_limit: acc.page_limit.unwrap(),
                    },
                    v,
                ),
            )
        } else {
            None
        },
        None => None,
    }
}

fn page_obj(s: &str, i: usize) -> (r: Option<(PageInfo, usize)>)
    requires
        i <= s@.len(),
    ensures
        val_rel(r, spec_page_obj(s@, i as int)),
        r matches Some(p) ==> i < p.1 <= s@.len(),
{
    match page_fields(s, i, PageAcc { total_items: None, page: None, page_limit: None }) {
        Some((acc, v)) => match (acc.total_items, acc.page, acc.page_limit) {
            (Some(total_items), Some(page), Some(page_limit)) => Some(
                (PageInfo { total_items, page, page_limit }, v),
            ),
            _ => None,
        },
        None => None,
    }
}

/// What has been gathered so far while walking the listing response
/// object.
pub struct RespAcc {
    pub data: Option<Vec<Project>>,
    pub page_info: Option<PageInfo>,
}

pub struct RespAccV {
    pub data: Option<Seq<ProjectV>>,
    pub page_info: Option<PageInfo>,
}

impl View for RespAcc {
    type V = RespAccV;

    open spec fn view(&self) -> RespAccV {
        RespAccV {
            data: match self.data {
                Some(d) => Some(d@.map(|q: int, p: Project| p@)),
                None => None,
            },
            page_info: self.page_info,
        }
    }
}

pub open spec fn racc_empty() -> RespAccV {
    RespAccV { data: None, page_info: None }
}

/// How one listing-response member, named by `key` with its value at
/// `w`, changes the accumulator.
pub open spec fn spec_resp_field_value(s: Seq<char>, w: int, key: Seq<char>, acc: RespAccV) -> Option<
    (RespAccV, int),
> {
    if key == "data"@ {
        if 0 <= w && w < s.len() && s[w] == '[' {
            match spec_projects_array(s, w + 1) {
                Some((ps, v)) => Some((RespAccV { data: Some(ps), ..acc }, v)),
                None => None,
            }
        } else {
            None
        }
    } else if key == "page_info"@ {
        if 0 <= w && w < s.len() && s[w] == '{' {
            match spec_page_obj(s, w + 1) {
                Some((pi, v)) => Some((RespAccV { page_info: Some(pi), ..acc }, v)),
                None => None,
            }
        } else {
            None
        }
    } else {
        match spec_skip_value(s, w) {
            Some(v) => Some((acc, v)),
            None => None,
        }
    }
}

fn resp_field_value(s: &str, w: usize, key: &String, acc: RespAcc) -> (r: Option<(RespAcc, usize)>)
    requires
        w <= s@.len(),
    ensures
        val_rel(r, spec_resp_field_value(s@, w as int, key@, acc@)),
        r matches Some(p) ==> w < p.1 <= s@.len(),
{
    let n = s.unicode_len();
    if *key == String::from_str("data") {
        if w < n && s.get_char(w) == '[' {
            match projects_array(s, w + 1) {
                Some((ps, v)) => Some((RespAcc { data: Some(ps), ..acc }, v)),
                None => None,
            }
        } else {
            None
        }
    } else if *key == String::from_str("page_info") {
        if w < n && s.get_char(w) == '{' {
            match page_obj(s, w + 1) {
                Some((pi, v)) => Some((RespAcc { page_info: Some(pi), ..acc }, v)),
                None => None,
            }
        } else {
            None
        }
    } else {
        match skip_value(s, w) {
            Some(v) => Some((acc, v)),
            None => None,
        }
    }
}

/// The members of the listing response object, entered just after `{`
/// or `,`.
pub open spec fn spec_resp_fields(s: Seq<char>, i: int, acc: RespAccV) -> Option<(RespAccV, int)>
    decreases s.len() - i,
{
    let j = spec_skip_ws(s, i);
    if !(i <= j && j < s.len()) {
        None
    } else if s[j] == '}' {
        Some((acc, j + 1))
    } else if s[j] == '"' {
        match spec_parse_string(s, j + 1) {
            Some((key, k)) => if !(j + 1 < k && k <= s.len()) {
                None
            } else {
                let k2 = spec_skip_ws(s, k);
                if !(k <= k2 && k2 < s.len() && s[k2] == ':') {
                    None
                } else {
                    let w = spec_skip_ws(s, k2 + 1);
                    if !(k2 + 1 <= w && w <= s.len()) {
                        None
                    } else {
                        match spec_resp_field_value(s, w, key, acc) {
                            Some((acc2, v)) => if !(w < v && v <= s.len()) {
                                None
                            } else {
                                let t = spec_skip_ws(s, v);
                                if !(v <= t && t < s.len()) {
                                    None
                                } else if s[t] == ',' {
                                    spec_resp_fields(s, t + 1, acc2)
                                } else if s[t] == '}' {
                                    Some((acc2, t + 1))
                                } else {
                                    None
                                }
                            },
                            None => None,
                        }
                    }
                }
            },
            None => None,
        }
    } else {
        None
    }
}

fn resp_fields(s: &str, i: usize, acc: RespAcc) -> (r: Option<(RespAcc, usize)>)
    requires
        i <= s@.len(),
    ensures
        val_rel(r, spec_resp_fields(s@, i as int, acc@)),
        r matches Some(p) ==> i < p.1 <= s@.len(),
    decreases s@.len() - i,
{
    let n = s.unicode_len();
    let j = skip_ws(s, i);
    if j >= n {
        None
    } else {
        let cj = s.get_char(j);
        if cj == '}' {
            Some((acc, j + 1))
        } else if cj == '"' {
            match parse_string_body(s, j + 1) {
                Some((key, k)) => {
                    let k2 = skip_ws(s, k);
                    if k2 >= n || s.get_char(k2) != ':' {
                        None
                    } else {
                        let w = skip_ws(s, k2 + 1);
                        match resp_field_value(s, w, &key, acc) {
                            Some((acc2, v)) => {
                                let t = skip_ws(s, v);
                                if t >= n {
                                    None
                                } else if s.get_char(t) == ',' {
                                    resp_fields(s, t + 1, acc2)
                                } else if s.get_char(t) == '}' {
                                    Some((acc2, t + 1))
                                } else {
                                    None
                                }
                            },
                            None => None,
                        }
                    }
                },
                None => None,
            }
        } else {
            None
        }
    }
}

/// The page of projects a whole document denotes: one object holding the
/// project list and its page information, nothing but whitespace around
/// it.
pub open spec fn spec_parse_projects(s: Seq<char>) -> Option<ProjectsResponseV> {
    let w = spec_skip_ws(s, 0);
    if !(0 <= w && w < s.len() && s[w] == '{') {
        None
    } else {
        match spec_resp_fields(s, w + 1, racc_empty()) {
            Some((acc, v)) => if spec_skip_ws(s, v) == s.len() && acc.data is Some && acc.page_info
                is Some {
                Some(ProjectsResponseV { data: acc.data.unwrap(), page_info: acc.page_info.unwrap() })
            } else {
                None
            },
            None => None,
        }
    }
}

/// Decodes a whole document as one page of projects.
pub fn parse_projects(s: &str) -> (r: Option<ProjectsResponse>)
    ensures
        opt_rel(r, spec_parse_projects(s@)),
{
    let n = s.unicode_len();
    let w = skip_ws(s, 0);
    if w >= n || s.get_char(w) != '{' {
        None
    } else {
        match resp_fields(s, w + 1, RespAcc { data: None, page_info: None }) {
            Some((acc, v)) => {
                let t = skip_ws(s, v);
                if t == n {
                    match (acc.data, acc.page_info) {
                        (Some(data), Some(page_info)) => Some(ProjectsResponse { data, page_info }),
                        _ => None,
                    }
                } else {
                    None
                }
            },
            None => None,
        }
    }
}

} // verus!
