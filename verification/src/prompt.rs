//! The AI's system prompts: which file a prompt is read from, the checks of
//! the `/prompt` upload and delete commands, and their replies.
use vstd::prelude::*;
use crate::activity::opt_view;
use crate::text::{has_prefix, has_suffix, starts_with, ends_with};

verus! {

/// The prompt settings of the AI configuration: the file the system prompt is
/// read from and whether the model is asked to think first.
pub struct PromptSettings {
    /// The path of the system prompt file.
    pub system_prompt_file: String,
    /// Whether the conversation announces that the model is thinking.
    pub enable_thinking: bool,
}

/// Why a prompt command is refused.
#[derive(PartialEq, Eq, Structural, Debug)]
pub enum PromptError {
    /// An uploaded role name already ends in `.md`.
    BadRoleName,
    /// A file to delete does not end in `.md`.
    BadFileName,
    /// No system prompt file is set.
    NoSystemPrompt,
}

impl PromptError {
    /// The message the command answers with.
    pub fn message(&self) -> (s: String)
        ensures
            s@ == match self {
                PromptError::BadRoleName => "角色名不符合要求"@,
                PromptError::BadFileName => "文件名不符合要求，需以.md结尾"@,
                PromptError::NoSystemPrompt => "未设置系统提示！"@,
            },
    {
        match self {
            PromptError::BadRoleName => String::from_str("角色名不符合要求"),
            PromptError::BadFileName => String::from_str("文件名不符合要求，需以.md结尾"),
            PromptError::NoSystemPrompt => String::from_str("未设置系统提示！"),
        }
    }
}

/// The last component of `path` as `std::path::Path::file_name` finds it on
/// this platform (lossily converted to UTF-8): `None` where the path ends in
/// `..`, is a root or is empty.
pub uninterp spec fn file_name_of(path: Seq<char>) -> Option<Seq<char>>;

/// A name that is one whole path component on every platform: not empty,
/// without `/` or `\\`, and neither `.` nor `..`.
pub open spec fn plain_file_name(n: Seq<char>) -> bool {
    &&& n.len() > 0
    &&& !n.contains('/')
    &&& !n.contains('\\')
    &&& n != "."@
    &&& n != ".."@
}

/// `std::path::Path::file_name` of `path`, converted to a `String` with
/// `to_string_lossy`. The contract names the result (`file_name_of`) and
/// states one fact of the documentation: the final component of
/// `config/<f>`, for a plain name `f`, is `f`.
#[verifier::external_body]
fn path_file_name(path: &str) -> (r: Option<String>)
    ensures
        opt_view(r) == file_name_of(path@),
        forall|f: Seq<char>| #[trigger] prompt_path(f) == path@ && plain_file_name(f) ==> opt_view(r) == Some(f),
{
    match std::path::Path::new(path).file_name() {
        Some(n) => Some(n.to_string_lossy().into_owned()),
        None => None,
    }
}

/// The path of the prompt file `file_name`: `config/<file_name>`.
pub open spec fn prompt_path(file_name: Seq<char>) -> Seq<char> {
    "config/"@ + file_name
}

/// The path of a prompt file in the configuration directory.
pub fn prompt_file_path(file_name: &str) -> (p: String)
    ensures
        p@ == prompt_path(file_name@),
{
    let mut p = String::from_str("config/");
    p.append(file_name);
    p
}

impl PromptSettings {
    /// Switches to the prompt file `file_name` of the configuration directory
    /// (the caller then reads it).
    pub fn use_others_prompt(&mut self, file_name: &str)
        ensures
            final(self).system_prompt_file@ == prompt_path(file_name@),
            final(self).enable_thinking == old(self).enable_thinking,
    {
        self.system_prompt_file = prompt_file_path(file_name);
    }

    /// The file name of the prompt's path (what `init_prompt` and
    /// `get_system_prompt` go by), as `std::path::Path::file_name` finds it.
    fn prompt_file_name(&self) -> (r: Option<String>)
        ensures
            opt_view(r) == file_name_of(self.system_prompt_file@),
            forall|f: Seq<char>| #[trigger] prompt_path(f) == self.system_prompt_file@ && plain_file_name(f) ==> opt_view(r) == Some(f),
    {
        path_file_name(self.system_prompt_file.as_str())
    }

    /// On startup: where the path has a file name, switches to that file of
    /// the configuration directory and returns its name (the caller then
    /// reads the prompt); else leaves the settings as they are. Once the
    /// path is `config/<f>` for a plain name `f`, a further call changes
    /// nothing and returns `f` again.
    pub fn init_prompt(&mut self) -> (r: Option<String>)
        ensures
            opt_view(r) == file_name_of(old(self).system_prompt_file@),
            forall|f: Seq<char>| #[trigger] prompt_path(f) == old(self).system_prompt_file@ && plain_file_name(f)
                ==> (r matches Some(n) && n@ == f && final(self).system_prompt_file@ == old(self).system_prompt_file@),
            r matches Some(n) ==> final(self).system_prompt_file@ == prompt_path(n@),
            r is None ==> final(self).system_prompt_file == old(self).system_prompt_file,
            final(self).enable_thinking == old(self).enable_thinking,
    {
        let name = self.prompt_file_name();
        self.init_prompt_from(name)
    }

    /// `init_prompt` given the file name of the prompt's path (`None` when
    /// the path has none): switches to that file of the configuration
    /// directory and returns the name, or leaves the settings as they are.
    pub fn init_prompt_from(&mut self, file_name: Option<String>) -> (r: Option<String>)
        ensures
            r == file_name,
            match file_name {
                Some(n) => final(self).system_prompt_file@ == prompt_path(n@),
                None => final(self).system_prompt_file == old(self).system_prompt_file,
            },
            final(self).enable_thinking == old(self).enable_thinking,
    {
        match file_name {
            Some(n) => {
                self.use_others_prompt(n.as_str());
                Some(n)
            },
            None => None,
        }
    }

    /// The prompt's file name and text, with the cached prompt text `content`;
    /// an error where the path has no file name. After `use_others_prompt(f)`
    /// with a plain name `f`, it is `f` and `content`.
    pub fn get_system_prompt(&self, content: &str) -> (r: Result<(String, String), PromptError>)
        ensures
            match file_name_of(self.system_prompt_file@) {
                Some(n) => r matches Ok(p) && p.0@ == n && p.1@ == content@,
                None => r matches Err(e) && e == PromptError::NoSystemPrompt,
            },
            forall|f: Seq<char>| #[trigger] prompt_path(f) == self.system_prompt_file@ && plain_file_name(f)
                ==> (r matches Ok(p) && p.0@ == f && p.1@ == content@),
    {
        match self.prompt_file_name() {
            Some(n) => Self::system_prompt_of(Some(n.as_str()), content),
            None => Self::system_prompt_of(None, content),
        }
    }

    /// The prompt's file name and text, given the file name of the prompt's
    /// path (`None` when the path has none) and the cached prompt text.
    pub fn system_prompt_of(file_name: Option<&str>, content: &str) -> (r: Result<(String, String), PromptError>)
        ensures
            match file_name {
                Some(n) => r matches Ok(p) && p.0@ == n@ && p.1@ == content@,
                None => r matches Err(e) && e == PromptError::NoSystemPrompt,
            },
    {
        match file_name {
            Some(n) => Ok((n.to_owned(), content.to_owned())),
            None => Err(PromptError::NoSystemPrompt),
        }
    }
}

/// `/prompt 上传 <role> <content>`: the path the prompt is written to,
/// `config/<role>.md`; a role name that already ends in `.md` is refused.
pub fn upload_path(role_name: &str) -> (r: Result<String, PromptError>)
    ensures
        r is Err <==> has_suffix(role_name@, ".md"@),
        r matches Err(e) ==> e == PromptError::BadRoleName,
        r matches Ok(p) ==> p@ == prompt_path(role_name@ + ".md"@),
{
    if ends_with(role_name, ".md") {
        return Err(PromptError::BadRoleName);
    }
    let mut p = String::from_str("config/");
    p.append(role_name);
    p.append(".md");
    assert(p@ =~= prompt_path(role_name@ + ".md"@));
    Ok(p)
}

/// `/prompt 删除 <file>`: the path removed, `config/<file>`; a name that does
/// not end in `.md` is refused.
pub fn delete_path(file_name: &str) -> (r: Result<String, PromptError>)
    ensures
        r is Err <==> !has_suffix(file_name@, ".md"@),
        r matches Err(e) ==> e == PromptError::BadFileName,
        r matches Ok(p) ==> p@ == prompt_path(file_name@),
{
    if !ends_with(file_name, ".md") {
        return Err(PromptError::BadFileName);
    }
    Ok(prompt_file_path(file_name))
}

/// The reply of `/prompt 删除 <file>`: `删除**<file>**成功` or `删除**<file>**失败`.
pub fn delete_reply(file_name: &str, removed: bool) -> (s: String)
    ensures
        s@ == "删除**"@ + file_name@ + if removed {
            "**成功"@
        } else {
            "**失败"@
        },
{
    let mut s = String::from_str("删除**");
    s.append(file_name);
    if removed {
        s.append("**成功");
    } else {
        s.append("**失败");
    }
    s
}

/// The reply of `/prompt switch` after switching to `name`.
pub fn switched_reply(name: &str, content: &str) -> (s: String)
    ensures
        s@ == "已使用 "@ + name@ + " 的提示文件\r\n "@ + content@,
{
    let mut s = String::from_str("已使用 ");
    s.append(name);
    s.append(" 的提示文件\r\n ");
    s.append(content);
    s
}

/// The reply of `/prompt switch` with no file: the prompt in use, quoted.
pub fn current_prompt_reply(name: &str, content: &str) -> (s: String)
    ensures
        s@ == "已使用 "@ + name@ + " 的提示文件\r\n > "@ + content@,
{
    let mut s = String::from_str("已使用 ");
    s.append(name);
    s.append(" 的提示文件\r\n > ");
    s.append(content);
    s
}

/// The prompt files offered for what the user typed: the names ending in
/// `.md` that begin with `partial`, in order.
pub open spec fn prompt_suggestions(names: Seq<Seq<char>>, partial: Seq<char>) -> Seq<Seq<char>>
    decreases names.len(),
{
    if names.len() == 0 {
        seq![]
    } else {
        let rest = prompt_suggestions(names.drop_last(), partial);
        let n = names.last();
        if has_suffix(n, ".md"@) && has_prefix(n, partial) {
            rest.push(n)
        } else {
            rest
        }
    }
}

/// Every offered prompt file is one of the directory's `.md` files and
/// begins with what the user typed.
pub proof fn lemma_prompt_suggestions_sound(names: Seq<Seq<char>>, partial: Seq<char>)
    ensures
        forall|k: int| 0 <= k < prompt_suggestions(names, partial).len() ==> {
            &&& has_suffix(#[trigger] prompt_suggestions(names, partial)[k], ".md"@)
            &&& has_prefix(prompt_suggestions(names, partial)[k], partial)
            &&& names.contains(prompt_suggestions(names, partial)[k])
        },
    decreases names.len(),
{
    if names.len() > 0 {
        let t = names.drop_last();
        lemma_prompt_suggestions_sound(t, partial);
        let r = prompt_suggestions(names, partial);
        assert forall|k: int| 0 <= k < r.len() implies {
            &&& has_suffix(#[trigger] r[k], ".md"@)
            &&& has_prefix(r[k], partial)
            &&& names.contains(r[k])
        } by {
            let rest = prompt_suggestions(t, partial);
            if k < rest.len() {
                assert(r[k] == rest[k]);
                let j = choose|j: int| 0 <= j < t.len() && t[j] == rest[k];
                assert(names[j] == t[j]);
            } else {
                assert(r[k] == names.last());
                assert(names[names.len() - 1] == names.last());
            }
        }
    }
}

/// The completions of a prompt file argument, among the names of the
/// configuration directory's files.
pub fn autocomplete_ai_prompt_list(names: &Vec<String>, partial: &str) -> (r: Vec<String>)
    ensures
        r@.map_values(|s: String| s@) == prompt_suggestions(names@.map_values(|s: String| s@), partial@),
{
    let ghost all = names@.map_values(|s: String| s@);
    let mut r: Vec<String> = Vec::new();
    let mut i: usize = 0;
    while i < names.len()
        invariant
            i <= names.len(),
            all == names@.map_values(|s: String| s@),
            r@.map_values(|s: String| s@) == prompt_suggestions(all.take(i as int), partial@),
        decreases names.len() - i,
    {
        assert(all.take(i + 1).drop_last() =~= all.take(i as int));
        assert(all.take(i + 1).last() == names@[i as int]@);
        let ghost before = r@;
        if ends_with(names[i].as_str(), ".md") && starts_with(names[i].as_str(), partial) {
            r.push(names[i].clone());
            assert(r@.map_values(|s: String| s@) =~= before.map_values(|s: String| s@).push(names@[i as int]@));
        }
        i = i + 1;
    }
    assert(all.take(i as int) =~= all);
    r
}

} // verus!
