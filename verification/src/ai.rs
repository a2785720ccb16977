//! The assistant: the context handed to a model, prompt building, the
//! built-in pattern-based assistant, the routing of a hybrid (local or
//! cloud) assistant, and the registry of downloadable models.

use vstd::prelude::*;
use crate::text;
use crate::commands;
use crate::search;

verus! {

/// What the assistant is told about the user's situation.
#[derive(Debug)]
pub struct AIContext {
    pub current_dir: String,
    pub selected_files: Vec<String>,
    pub command_history: Vec<String>,
    pub additional_context: Option<String>,
}

/// Each item as a `  - ` bullet line.
pub open spec fn bullet_lines(items: Seq<Seq<char>>) -> Seq<char>
    decreases items.len(),
{
    if items.len() == 0 {
        Seq::empty()
    } else {
        bullet_lines(items.drop_last()) + "  - "@ + items.last() + "\n"@
    }
}

/// The context text of an assistant request: the current directory, the
/// names of the selected files, the five most recent commands and any
/// additional context.
pub open spec fn prompt_context(current_dir: Seq<char>, files: Seq<Seq<char>>, history: Seq<Seq<char>>, additional: Option<Seq<char>>) -> Seq<char> {
    "Current directory: "@ + current_dir + "\n"@ + (if files.len() > 0 {
        "Selected files:\n"@ + bullet_lines(commands::file_names(files))
    } else {
        Seq::empty()
    }) + (if history.len() > 0 {
        "\nRecent commands:\n"@ + bullet_lines(history.take(if history.len() < 5 { history.len() as int } else { 5 }))
    } else {
        Seq::empty()
    }) + match additional {
        Some(a) => "\nAdditional context:\n"@ + a + "\n"@,
        None => Seq::empty(),
    }
}

/// Appends `  - item` and a line break.
fn push_bullet(s: &mut String, item: &str)
    ensures
        final(s)@ == old(s)@ + "  - "@ + item@ + "\n"@,
{
    s.append("  - ");
    s.append(item);
    s.append("\n");
}

impl AIContext {
    /// The strings of the context as values.
    pub open spec fn files(&self) -> Seq<Seq<char>> {
        crate::cache::strings_view(self.selected_files@)
    }

    /// The commands of the context as values.
    pub open spec fn history(&self) -> Seq<Seq<char>> {
        crate::cache::strings_view(self.command_history@)
    }

    /// A context for a directory, with nothing selected and no history.
    pub fn new(current_dir: String) -> (r: Self)
        ensures
            r.current_dir@ == current_dir@,
            r.selected_files@.len() == 0,
            r.command_history@.len() == 0,
            r.additional_context is None,
    {
        AIContext {
            current_dir,
            selected_files: Vec::new(),
            command_history: Vec::new(),
            additional_context: None,
        }
    }

    /// The context with these selected files.
    pub fn with_files(self, files: Vec<String>) -> (r: Self)
        ensures
            r.current_dir == self.current_dir,
            r.selected_files@ == files@,
            r.command_history@ == self.command_history@,
            r.additional_context == self.additional_context,
    {
        let mut s = self;
        s.selected_files = files;
        s
    }

    /// The context with this command history.
    pub fn with_history(self, history: Vec<String>) -> (r: Self)
        ensures
            r.current_dir == self.current_dir,
            r.selected_files@ == self.selected_files@,
            r.command_history@ == history@,
            r.additional_context == self.additional_context,
    {
        let mut s = self;
        s.command_history = history;
        s
    }

    /// The context with this additional text.
    pub fn with_additional_context(self, context: String) -> (r: Self)
        ensures
            r.current_dir == self.current_dir,
            r.selected_files@ == self.selected_files@,
            r.command_history@ == self.command_history@,
            r.additional_context == Some(context),
    {
        let mut s = self;
        s.additional_context = Some(context);
        s
    }

    /// The context as text for a prompt.
    pub fn to_prompt_context(&self) -> (r: String)
        ensures
            r@ == prompt_context(
                self.current_dir@,
                self.files(),
                self.history(),
                match self.additional_context {
                    Some(a) => Some(a@),
                    None => None,
                },
            ),
    {
        let mut context = String::from_str("Current directory: ");
        context.append(self.current_dir.as_str());
        context.append("\n");
        let ghost head = context@;
        if self.selected_files.len() > 0 {
            context.append("Selected files:\n");
            let ghost fs = self.files();
            let ghost start = context@;
            let mut i: usize = 0;
            while i < self.selected_files.len()
                invariant
                    fs == self.files(),
                    i <= fs.len(),
                    context@ == start + bullet_lines(commands::file_names(fs.take(i as int))),
                decreases fs.len() - i,
            {
                assert(fs.take(i + 1).drop_last() =~= fs.take(i as int));
                assert(fs.take(i + 1).last() == self.selected_files@[i as int]@);
                match crate::paths::file_name(self.selected_files[i].as_str()) {
                    Some(name) => {
                        let ghost before = context@;
                        push_bullet(&mut context, name.as_str());
                        assert(commands::file_names(fs.take(i + 1)) == commands::file_names(fs.take(i as int)).push(name@));
                        assert(commands::file_names(fs.take(i as int)).push(name@).drop_last() =~= commands::file_names(fs.take(i as int)));
                        assert(context@ =~= start + bullet_lines(commands::file_names(fs.take(i + 1))));
                    },
                    None => {},
                }
                i = i + 1;
            }
            assert(fs.take(fs.len() as int) =~= fs);
        }
        let ghost mid = context@;
        if self.command_history.len() > 0 {
            context.append("\nRecent commands:\n");
            let ghost hs = self.history();
            let ghost start = context@;
            let n = if self.command_history.len() < 5 { self.command_history.len() } else { 5 };
            let mut i: usize = 0;
            while i < n
                invariant
                    hs == self.history(),
                    n <= hs.len(),
                    i <= n,
                    context@ == start + bullet_lines(hs.take(i as int)),
                decreases n - i,
            {
                assert(hs.take(i + 1).drop_last() =~= hs.take(i as int));
                assert(hs.take(i + 1).last() == self.command_history@[i as int]@);
                let ghost before = context@;
                push_bullet(&mut context, self.command_history[i].as_str());
                assert(context@ =~= start + bullet_lines(hs.take(i + 1)));
                i = i + 1;
            }
        }
        let ghost last = context@;
        if let Some(additional) = &self.additional_context {
            context.append("\nAdditional context:\n");
            context.append(additional.as_str());
            context.append("\n");
        }
        proof {
            let files_part = if self.files().len() > 0 {
                "Selected files:\n"@ + bullet_lines(commands::file_names(self.files()))
            } else {
                Seq::<char>::empty()
            };
            assert(mid =~= head + files_part);
        }
        assert(context@ =~= prompt_context(
            self.current_dir@,
            self.files(),
            self.history(),
            match self.additional_context {
                Some(a) => Some(a@),
                None => None,
            },
        ));
        context
    }
}

impl Clone for AIContext {
    fn clone(&self) -> (r: Self)
        ensures
            r.current_dir == self.current_dir,
            r.selected_files@ == self.selected_files@,
            r.command_history@ == self.command_history@,
            r.additional_context == self.additional_context,
    {
        AIContext {
            current_dir: self.current_dir.clone(),
            selected_files: crate::config::clone_strings(&self.selected_files),
            command_history: crate::config::clone_strings(&self.command_history),
            additional_context: crate::fs::clone_opt_string(&self.additional_context),
        }
    }
}

/// The default instructions of the assistant.
pub open spec fn default_system_text() -> Seq<char> {
    "You are an AI assistant integrated into Cortex, a terminal file manager.\nYour role is to help users with file management tasks through natural language.\n\nGuidelines:\n1. Provide clear, actionable file operations\n2. Always confirm before suggesting destructive operations\n3. Use appropriate shell commands for the user's platform\n4. Explain what each operation will do\n5. Consider the current directory and selected files in your responses\n\nWhen suggesting file operations, format them as clear commands that can be executed."@
}

/// Builds the text sent to a model: instructions, context and request.
#[derive(Debug)]
pub struct PromptBuilder {
    system_prompt: String,
    user_prompt: String,
    context: Option<AIContext>,
}

/// The full prompt: the instructions, the context (if any) after a blank
/// line, and the user's request after a blank line.
pub open spec fn full_prompt(system: Seq<char>, context: Option<Seq<char>>, user: Seq<char>) -> Seq<char> {
    system + match context {
        Some(c) => "\n\n"@ + c,
        None => Seq::empty(),
    } + "\n\nUser request: "@ + user
}

impl PromptBuilder {
    /// The instructions.
    pub closed spec fn system(&self) -> Seq<char> {
        self.system_prompt@
    }

    /// The user's request.
    pub closed spec fn user(&self) -> Seq<char> {
        self.user_prompt@
    }

    /// The context text, if a context is set.
    pub closed spec fn context_text(&self) -> Option<Seq<char>> {
        match self.context {
            Some(c) => Some(
                prompt_context(
                    c.current_dir@,
                    c.files(),
                    c.history(),
                    match c.additional_context {
                        Some(a) => Some(a@),
                        None => None,
                    },
                ),
            ),
            None => None,
        }
    }

    /// A builder with the default instructions, no request and no context.
    pub fn new() -> (r: Self)
        ensures
            r.system() == default_system_text(),
            r.user() == Seq::<char>::empty(),
            r.context_text() is None,
    {
        PromptBuilder { system_prompt: Self::default_system_prompt(), user_prompt: String::new(), context: None }
    }

    /// The builder with these instructions.
    pub fn with_system_prompt(self, prompt: String) -> (r: Self)
        ensures
            r.system() == prompt@,
            r.user() == self.user(),
            r.context_text() == self.context_text(),
    {
        let mut s = self;
        s.system_prompt = prompt;
        s
    }

    /// The builder with this request.
    pub fn with_user_prompt(self, prompt: String) -> (r: Self)
        ensures
            r.system() == self.system(),
            r.user() == prompt@,
            r.context_text() == self.context_text(),
    {
        let mut s = self;
        s.user_prompt = prompt;
        s
    }

    /// The builder with this context.
    pub fn with_context(self, context: AIContext) -> (r: Self)
        ensures
            r.system() == self.system(),
            r.user() == self.user(),
            r.context_text() == Some(
                prompt_context(
                    context.current_dir@,
                    context.files(),
                    context.history(),
                    match context.additional_context {
                        Some(a) => Some(a@),
                        None => None,
                    },
                ),
            ),
    {
        let mut s = self;
        s.context = Some(context);
        s
    }

    /// The full prompt.
    pub fn build(&self) -> (r: String)
        ensures
            r@ == full_prompt(self.system(), self.context_text(), self.user()),
    {
        let mut full = self.system_prompt.clone();
        if let Some(ctx) = &self.context {
            full.append("\n\n");
            let c = ctx.to_prompt_context();
            full.append(c.as_str());
        }
        full.append("\n\nUser request: ");
        full.append(self.user_prompt.as_str());
        full
    }

    fn default_system_prompt() -> (r: String)
        ensures
            r@ == default_system_text(),
    {
        String::from_str(
            "You are an AI assistant integrated into Cortex, a terminal file manager.\nYour role is to help users with file management tasks through natural language.\n\nGuidelines:\n1. Provide clear, actionable file operations\n2. Always confirm before suggesting destructive operations\n3. Use appropriate shell commands for the user's platform\n4. Explain what each operation will do\n5. Consider the current directory and selected files in your responses\n\nWhen suggesting file operations, format them as clear commands that can be executed.",
        )
    }

    /// The request to reorganise the current directory.
    pub fn file_organization_prompt() -> (r: String)
        ensures
            r@ == "Analyze the files in the current directory and suggest an organized structure.\nConsider file types, dates, and logical groupings.\nProvide specific move/rename commands to reorganize the files."@,
    {
        String::from_str(
            "Analyze the files in the current directory and suggest an organized structure.\nConsider file types, dates, and logical groupings.\nProvide specific move/rename commands to reorganize the files.",
        )
    }

    /// The request to name the selected files after a pattern.
    pub fn bulk_rename_prompt(pattern: &str) -> (r: String)
        ensures
            r@ == "Generate meaningful names for the selected files based on: "@ + pattern@
                + "\nProvide a list of rename operations in the format:\nold_name -> new_name"@,
    {
        let mut s = String::from_str("Generate meaningful names for the selected files based on: ");
        s.append(pattern);
        s.append("\nProvide a list of rename operations in the format:\nold_name -> new_name");
        s
    }

    /// The request to find files by a description.
    pub fn search_prompt(query: &str) -> (r: String)
        ensures
            r@ == "Search for files matching this description: "@ + query@
                + "\nConsider file names, types, and potential content.\nReturn a list of relevant files with brief explanations."@,
    {
        let mut s = String::from_str("Search for files matching this description: ");
        s.append(query);
        s.append(
            "\nConsider file names, types, and potential content.\nReturn a list of relevant files with brief explanations.",
        );
        s
    }
}

/// An answer of the assistant.
#[derive(Debug)]
pub struct AIResponse {
    pub content: String,
    pub provider: String,
    pub model: String,
    pub tokens_used: Option<usize>,
}

impl Clone for AIResponse {
    fn clone(&self) -> (r: Self)
        ensures
            r == *self,
    {
        AIResponse {
            content: self.content.clone(),
            provider: self.provider.clone(),
            model: self.model.clone(),
            tokens_used: self.tokens_used,
        }
    }
}

/// Why the assistant could not answer.
#[derive(Debug)]
pub enum AIError {
    ProviderUnavailable,
    ModelNotFound(String),
    ContextTooLarge,
    InvalidResponse(String),
    OperationDenied(String),
    NetworkError(String),
    ConfigurationError(String),
    StreamingError(String),
}

/// The message of an assistant error.
pub open spec fn ai_error_message(e: AIError) -> Seq<char> {
    match e {
        AIError::ProviderUnavailable => "AI provider is not available"@,
        AIError::ModelNotFound(m) => "Model '"@ + m@ + "' not found"@,
        AIError::ContextTooLarge => "Context exceeds maximum token limit"@,
        AIError::InvalidResponse(m) => "Invalid AI response: "@ + m@,
        AIError::OperationDenied(m) => "Operation denied: "@ + m@,
        AIError::NetworkError(m) => "Network error: "@ + m@,
        AIError::ConfigurationError(m) => "Configuration error: "@ + m@,
        AIError::StreamingError(m) => "Streaming error: "@ + m@,
    }
}

fn prefixed(prefix: &str, detail: &String) -> (r: String)
    ensures
        r@ == prefix@ + detail@,
{
    let mut s = String::from_str(prefix);
    s.append(detail.as_str());
    s
}

impl AIError {
    /// The error's message.
    pub fn message(&self) -> (r: String)
        ensures
            r@ == ai_error_message(*self),
    {
        match self {
            AIError::ProviderUnavailable => String::from_str("AI provider is not available"),
            AIError::ModelNotFound(m) => {
                let mut s = String::from_str("Model '");
                s.append(m.as_str());
                s.append("' not found");
                s
            },
            AIError::ContextTooLarge => String::from_str("Context exceeds maximum token limit"),
            AIError::InvalidResponse(m) => prefixed("Invalid AI response: ", m),
            AIError::OperationDenied(m) => prefixed("Operation denied: ", m),
            AIError::NetworkError(m) => prefixed("Network error: ", m),
            AIError::ConfigurationError(m) => prefixed("Configuration error: ", m),
            AIError::StreamingError(m) => prefixed("Streaming error: ", m),
        }
    }
}

/// The built-in assistant's answer: a how-to for the first topic the prompt
/// mentions (ignoring case), else an echo of the prompt with general tips.
pub open spec fn simple_reply(prompt: Seq<char>) -> Seq<char> {
    let l = text::lowercase(prompt);
    if text::seq_contains(l, "list"@) || text::seq_contains(l, "show"@) {
        "To list files in the current directory, you can use:\n- Press Enter on an empty command line to refresh\n- Use arrow keys to navigate\n- Press Space to mark files\n- Press Tab to switch panels"@
    } else if text::seq_contains(l, "copy"@) {
        "To copy files:\n1. Select files with Space\n2. Press F5 or use /copy command\n3. Navigate to destination\n4. Confirm the operation"@
    } else if text::seq_contains(l, "move"@) || text::seq_contains(l, "rename"@) {
        "To move or rename files:\n1. Select the file\n2. Press F6 or use /move command\n3. Enter the new name or path\n4. Press Enter to confirm"@
    } else if text::seq_contains(l, "delete"@) || text::seq_contains(l, "remove"@) {
        "To delete files:\n1. Select files with Space\n2. Press F8 or Delete key\n3. Confirm the deletion\nWARNING: This operation cannot be undone!"@
    } else if text::seq_contains(l, "search"@) || text::seq_contains(l, "find"@) {
        "To search for files:\n1. Press /find or Ctrl+F\n2. Enter your search pattern\n3. Use wildcards like *.txt\n4. Navigate results with arrow keys"@
    } else if text::seq_contains(l, "organize"@) {
        "Here's a suggestion to organize your files:\n1. Create folders by categories (Documents, Images, Code)\n2. Use /mkdir to create new directories\n3. Select and move files to appropriate folders\n4. Consider using date-based organization for archives"@
    } else if text::seq_contains(l, "help"@) {
        "Cortex AI Assistant can help you with:\n- File operations (copy, move, delete)\n- Directory navigation\n- File organization strategies\n- Search and filter operations\n- Keyboard shortcuts\n\nJust ask me what you'd like to do!"@
    } else {
        "I understand you want to: "@ + prompt + "\n\nWhile I'm still learning, here are some things you can try:\n- Use arrow keys to navigate\n- Press F1 for help\n- Type /help for command list\n- Press Tab to switch between panels"@
    }
}

/// Whether lowercased text mentions a word.
fn mentions(l: &Vec<char>, word: &str) -> (r: bool)
    ensures
        r == text::seq_contains(l@, word@),
{
    let w = text::chars_of(word);
    text::contains_chars(l.as_slice(), w.as_slice())
}

/// The built-in assistant, which answers from a few patterns without a model.
#[derive(Debug)]
pub struct SimpleAIProvider {
    name: String,
}

impl SimpleAIProvider {
    /// The assistant's name.
    pub closed spec fn name_spec(&self) -> Seq<char> {
        self.name@
    }

    /// The built-in assistant, named `simple-ai`.
    pub fn new() -> (r: Self)
        ensures
            r.name_spec() == "simple-ai"@,
    {
        SimpleAIProvider { name: String::from_str("simple-ai") }
    }

    /// The answer to a prompt.
    pub fn generate_response(&self, prompt: &str) -> (r: String)
        ensures
            r@ == simple_reply(prompt@),
    {
        let l = text::chars_of(text::to_lowercase(prompt).as_str());
        if mentions(&l, "list") || mentions(&l, "show") {
            return String::from_str("To list files in the current directory, you can use:\n- Press Enter on an empty command line to refresh\n- Use arrow keys to navigate\n- Press Space to mark files\n- Press Tab to switch panels");
        }
        if mentions(&l, "copy") {
            return String::from_str("To copy files:\n1. Select files with Space\n2. Press F5 or use /copy command\n3. Navigate to destination\n4. Confirm the operation");
        }
        if mentions(&l, "move") || mentions(&l, "rename") {
            return String::from_str("To move or rename files:\n1. Select the file\n2. Press F6 or use /move command\n3. Enter the new name or path\n4. Press Enter to confirm");
        }
        if mentions(&l, "delete") || mentions(&l, "remove") {
            return String::from_str("To delete files:\n1. Select files with Space\n2. Press F8 or Delete key\n3. Confirm the deletion\nWARNING: This operation cannot be undone!");
        }
        if mentions(&l, "search") || mentions(&l, "find") {
            return String::from_str("To search for files:\n1. Press /find or Ctrl+F\n2. Enter your search pattern\n3. Use wildcards like *.txt\n4. Navigate results with arrow keys");
        }
        if mentions(&l, "organize") {
            return String::from_str("Here's a suggestion to organize your files:\n1. Create folders by categories (Documents, Images, Code)\n2. Use /mkdir to create new directories\n3. Select and move files to appropriate folders\n4. Consider using date-based organization for archives");
        }
        if mentions(&l, "help") {
            return String::from_str("Cortex AI Assistant can help you with:\n- File operations (copy, move, delete)\n- Directory navigation\n- File organization strategies\n- Search and filter operations\n- Keyboard shortcuts\n\nJust ask me what you'd like to do!");
        }
        let mut s = String::from_str("I understand you want to: ");
        s.append(prompt);
        s.append("\n\nWhile I'm still learning, here are some things you can try:\n- Use arrow keys to navigate\n- Press F1 for help\n- Type /help for command list\n- Press Tab to switch between panels");
        s
    }

    /// The answer to a prompt, from the `simple-patterns` model; it never
    /// fails.
    pub fn complete(&self, prompt: &str, _context: AIContext) -> (r: Result<AIResponse, AIError>)
        ensures
            r matches Ok(a) && a.content@ == simple_reply(prompt@) && a.provider@ == self.name_spec()
                && a.model@ == "simple-patterns"@ && a.tokens_used is None,
    {
        let content = self.generate_response(prompt);
        Ok(AIResponse {
            content,
            provider: self.name.clone(),
            model: String::from_str("simple-patterns"),
            tokens_used: None,
        })
    }

    /// The assistant's name.
    pub fn name(&self) -> (r: &str)
        ensures
            r@ == self.name_spec(),
    {
        self.name.as_str()
    }

    /// The model's name.
    pub fn model(&self) -> (r: &'static str)
        ensures
            r@ == "simple-patterns"@,
    {
        "simple-patterns"
    }

    /// The built-in assistant is always available.
    pub fn is_available(&self) -> (r: bool)
        ensures
            r,
    {
        true
    }

    /// The largest context, in tokens.
    pub fn max_context_tokens(&self) -> (r: usize)
        ensures
            r == 1000,
    {
        1000
    }
}

/// Which assistant a hybrid assistant asks.
#[derive(Debug, Clone, Copy, PartialEq, Eq, Structural)]
pub enum ProviderMode {
    /// Only the local model.
    LocalOnly,
    /// Only the cloud service.
    CloudOnly,
    /// The local model, the cloud where it is missing or unavailable.
    PreferLocal,
    /// The cloud where it is there and available, else the local model.
    PreferCloud,
    /// The cloud for complex requests, the local model for the rest.
    CostOptimized,
}

/// Whether a request counts as complex: longer than 500 bytes, asking to
/// analyze, explain or compare, or more than ten lines.
pub open spec fn complex_query(prompt: Seq<char>) -> bool {
    crate::cache::byte_len(prompt) > 500 || text::seq_contains(prompt, "analyze"@) || text::seq_contains(
        prompt,
        "explain"@,
    ) || text::seq_contains(prompt, "compare"@) || search::lines_of(prompt).len() > 10
}

/// Whether a hybrid assistant asks the cloud, given the availability of the
/// local and cloud assistants (nothing where there is none).
pub open spec fn uses_cloud(mode: ProviderMode, prompt: Seq<char>, local: Option<bool>, cloud: Option<bool>) -> bool {
    match mode {
        ProviderMode::LocalOnly => false,
        ProviderMode::CloudOnly => true,
        ProviderMode::PreferLocal => !(local == Some(true)),
        ProviderMode::PreferCloud => cloud == Some(true),
        ProviderMode::CostOptimized => complex_query(prompt),
    }
}

/// A request that contains the word `analyze`, `explain` or `compare`
/// anywhere (here the seven characters from position `i` on) is complex, so
/// the cost-optimising mode sends it to the cloud, whatever the availability
/// of either side.
pub proof fn law_keywords_go_to_cloud(
    prompt: Seq<char>,
    i: int,
    local: Option<bool>,
    cloud: Option<bool>,
)
    requires
        0 <= i,
        i + 7 <= prompt.len(),
        prompt.subrange(i, i + 7) == seq!['a', 'n', 'a', 'l', 'y', 'z', 'e'] || prompt.subrange(i, i + 7)
            == seq!['e', 'x', 'p', 'l', 'a', 'i', 'n'] || prompt.subrange(i, i + 7) == seq![
            'c',
            'o',
            'm',
            'p',
            'a',
            'r',
            'e',
        ],
    ensures
        complex_query(prompt),
        uses_cloud(ProviderMode::CostOptimized, prompt, local, cloud),
{
    reveal_strlit("analyze");
    reveal_strlit("explain");
    reveal_strlit("compare");
    if prompt.subrange(i, i + 7) == seq!['a', 'n', 'a', 'l', 'y', 'z', 'e'] {
        assert("analyze"@ =~= seq!['a', 'n', 'a', 'l', 'y', 'z', 'e']);
        assert(text::occurs_at(prompt, "analyze"@, i));
    } else if prompt.subrange(i, i + 7) == seq!['e', 'x', 'p', 'l', 'a', 'i', 'n'] {
        assert("explain"@ =~= seq!['e', 'x', 'p', 'l', 'a', 'i', 'n']);
        assert(text::occurs_at(prompt, "explain"@, i));
    } else {
        assert("compare"@ =~= seq!['c', 'o', 'm', 'p', 'a', 'r', 'e']);
        assert(text::occurs_at(prompt, "compare"@, i));
    }
}

/// The local-only mode never asks the cloud and the cloud-only mode always
/// does; preferring the local model asks the cloud exactly when the local
/// model is missing or unavailable, and preferring the cloud asks it exactly
/// when it is there and available.
pub proof fn law_routing_modes(prompt: Seq<char>, local: Option<bool>, cloud: Option<bool>)
    ensures
        !uses_cloud(ProviderMode::LocalOnly, prompt, local, cloud),
        uses_cloud(ProviderMode::CloudOnly, prompt, local, cloud),
        uses_cloud(ProviderMode::PreferLocal, prompt, local, cloud) <==> (local is None || local == Some(
            false,
        )),
        uses_cloud(ProviderMode::PreferCloud, prompt, local, cloud) <==> cloud == Some(true),
{
    if local is Some {
        assert(local == Some(true) || local == Some(false));
    }
}

/// Whether a request is complex.
pub fn is_complex_query(prompt: &str) -> (r: bool)
    ensures
        r == complex_query(prompt@),
{
    if prompt.len() > 500 {
        return true;
    }
    let cs = text::chars_of(prompt);
    if mentions(&cs, "analyze") || mentions(&cs, "explain") || mentions(&cs, "compare") {
        return true;
    }
    search::line_count(prompt) > 10
}

/// Whether a hybrid assistant asks the cloud.
pub fn should_use_cloud(mode: ProviderMode, prompt: &str, local: Option<bool>, cloud: Option<bool>) -> (r: bool)
    ensures
        r == uses_cloud(mode, prompt@, local, cloud),
{
    match mode {
        ProviderMode::LocalOnly => false,
        ProviderMode::CloudOnly => true,
        ProviderMode::PreferLocal => match local {
            Some(true) => false,
            _ => true,
        },
        ProviderMode::PreferCloud => match cloud {
            Some(true) => true,
            _ => false,
        },
        ProviderMode::CostOptimized => is_complex_query(prompt),
    }
}

/// Requests and tokens a hybrid assistant sent to each side.
#[derive(Debug, Clone, Copy, PartialEq, Eq, Structural)]
pub struct UsageCounts {
    pub local_tokens: usize,
    pub cloud_tokens: usize,
    pub local_requests: usize,
    pub cloud_requests: usize,
}

impl UsageCounts {
    /// No usage yet.
    pub fn new() -> (r: Self)
        ensures
            r.local_tokens == 0 && r.cloud_tokens == 0 && r.local_requests == 0 && r.cloud_requests == 0,
    {
        UsageCounts { local_tokens: 0, cloud_tokens: 0, local_requests: 0, cloud_requests: 0 }
    }

    /// Counts one answered request and its tokens (where reported).
    pub fn track_usage(&mut self, is_cloud: bool, tokens: Option<usize>)
        requires
            is_cloud ==> old(self).cloud_requests < usize::MAX && (tokens matches Some(t) ==> old(
                self,
            ).cloud_tokens + t <= usize::MAX),
            !is_cloud ==> old(self).local_requests < usize::MAX && (tokens matches Some(t) ==> old(
                self,
            ).local_tokens + t <= usize::MAX),
        ensures
            final(self).cloud_requests == old(self).cloud_requests + (if is_cloud { 1int } else { 0 }),
            final(self).local_requests == old(self).local_requests + (if is_cloud { 0int } else { 1 }),
            final(self).cloud_tokens == old(self).cloud_tokens + (if is_cloud { (match tokens {
                Some(t) => t as int,
                None => 0,
            }) } else { 0 }),
            final(self).local_tokens == old(self).local_tokens + (if is_cloud { 0 } else { (match tokens {
                Some(t) => t as int,
                None => 0,
            }) }),
    {
        if is_cloud {
            self.cloud_requests = self.cloud_requests + 1;
            if let Some(t) = tokens {
                self.cloud_tokens = self.cloud_tokens + t;
            }
        } else {
            self.local_requests = self.local_requests + 1;
            if let Some(t) = tokens {
                self.local_tokens = self.local_tokens + t;
            }
        }
    }
}

/// Which assistant a hybrid assistant hands a request to.
#[derive(Debug, Clone, Copy, PartialEq, Eq, Structural)]
pub enum Route {
    Local,
    Cloud,
    /// The side it chose has no assistant.
    Unavailable,
}

/// The side a request goes to: the one `uses_cloud` picks, if that side
/// has an assistant (`local` and `cloud` tell whether each is there and
/// available).
pub open spec fn route_of(mode: ProviderMode, prompt: Seq<char>, local: Option<bool>, cloud: Option<bool>) -> Route {
    if uses_cloud(mode, prompt, local, cloud) {
        if cloud is Some {
            Route::Cloud
        } else {
            Route::Unavailable
        }
    } else {
        if local is Some {
            Route::Local
        } else {
            Route::Unavailable
        }
    }
}

/// An assistant that sends each request to a local or a cloud assistant by
/// its mode, and counts what each side answered.
pub struct HybridProvider {
    mode: ProviderMode,
    usage: UsageCounts,
}

impl HybridProvider {
    /// The mode.
    pub closed spec fn mode(&self) -> ProviderMode {
        self.mode
    }

    /// The usage counted so far.
    pub closed spec fn usage(&self) -> UsageCounts {
        self.usage
    }

    /// A hybrid assistant with a mode and no usage.
    pub fn new(mode: ProviderMode) -> (r: Self)
        ensures
            r.mode() == mode,
            r.usage() == (UsageCounts { local_tokens: 0, cloud_tokens: 0, local_requests: 0, cloud_requests: 0 }),
    {
        HybridProvider { mode, usage: UsageCounts::new() }
    }

    /// Changes the mode.
    pub fn set_mode(&mut self, mode: ProviderMode)
        ensures
            final(self).mode() == mode,
            final(self).usage() == old(self).usage(),
    {
        self.mode = mode;
    }

    /// The usage counted so far.
    pub fn get_usage_stats(&self) -> (r: UsageCounts)
        ensures
            r == self.usage(),
    {
        self.usage
    }

    /// Where a request goes (see `route_of`).
    pub fn route(&self, prompt: &str, local: Option<bool>, cloud: Option<bool>) -> (r: Route)
        ensures
            r == route_of(self.mode(), prompt@, local, cloud),
    {
        if should_use_cloud(self.mode, prompt, local, cloud) {
            if cloud.is_some() {
                Route::Cloud
            } else {
                Route::Unavailable
            }
        } else {
            if local.is_some() {
                Route::Local
            } else {
                Route::Unavailable
            }
        }
    }

    /// The answer to a request sent along `route`: no assistant on that side
    /// is `ProviderUnavailable`; otherwise the assistant's own result, whose
    /// tokens are counted for its side when it answered.
    pub fn finish(&mut self, route: Route, result: Result<AIResponse, AIError>) -> (r: Result<AIResponse, AIError>)
        requires
            route == Route::Cloud && result is Ok ==> old(self).usage().cloud_requests < usize::MAX && (result->Ok_0.tokens_used matches Some(t) ==> old(self).usage().cloud_tokens + t <= usize::MAX),
            route == Route::Local && result is Ok ==> old(self).usage().local_requests < usize::MAX && (result->Ok_0.tokens_used matches Some(t) ==> old(self).usage().local_tokens + t <= usize::MAX),
        ensures
            final(self).mode() == old(self).mode(),
            route == Route::Unavailable ==> (r matches Err(AIError::ProviderUnavailable) && final(self).usage() == old(self).usage()),
            route != Route::Unavailable ==> r == result,
            route != Route::Unavailable && result is Err ==> final(self).usage() == old(self).usage(),
            route != Route::Unavailable && result is Ok ==> ({
                let t: int = match result->Ok_0.tokens_used {
                    Some(t) => t as int,
                    None => 0,
                };
                let u = old(self).usage();
                let v = final(self).usage();
                if route == Route::Cloud {
                    v.cloud_requests == u.cloud_requests + 1 && v.cloud_tokens == u.cloud_tokens + t
                        && v.local_requests == u.local_requests && v.local_tokens == u.local_tokens
                } else {
                    v.local_requests == u.local_requests + 1 && v.local_tokens == u.local_tokens + t
                        && v.cloud_requests == u.cloud_requests && v.cloud_tokens == u.cloud_tokens
                }
            }),
    {
        match route {
            Route::Unavailable => Err(AIError::ProviderUnavailable),
            _ => {
                if let Ok(response) = &result {
                    self.usage.track_usage(route == Route::Cloud, response.tokens_used);
                }
                result
            },
        }
    }

    /// The assistant's name.
    pub fn name(&self) -> (r: &'static str)
        ensures
            r@ == "hybrid"@,
    {
        "hybrid"
    }

    /// The assistant's model.
    pub fn model(&self) -> (r: &'static str)
        ensures
            r@ == "hybrid-auto"@,
    {
        "hybrid-auto"
    }

    /// Whether either side has an available assistant.
    pub fn is_available(&self, local: Option<bool>, cloud: Option<bool>) -> (r: bool)
        ensures
            r == (local == Some(true) || cloud == Some(true)),
    {
        local == Some(true) || cloud == Some(true)
    }
}

/// The file format of a model.
#[derive(Debug, Clone, Copy, PartialEq, Eq, Structural)]
pub enum ModelFormat {
    GGUF,
    GGML,
    ONNX,
}

/// Where a model runs.
#[derive(Debug, Clone, Copy, PartialEq, Eq, Structural)]
pub enum ModelTier {
    /// Embedded, runs locally.
    Free,
    /// A cloud service.
    Premium,
    /// Runs locally or in the cloud.
    Hybrid,
}

/// A model the assistant can use.
#[derive(Debug)]
pub struct ModelInfo {
    pub id: String,
    pub name: String,
    pub description: String,
    pub size_bytes: u64,
    pub ram_required: u64,
    pub quantization: String,
    pub capabilities: Vec<String>,
    pub download_url: String,
    pub sha256: String,
    pub format: ModelFormat,
    pub tier: ModelTier,
}

/// A model as values.
pub struct ModelSpec {
    pub id: Seq<char>,
    pub name: Seq<char>,
    pub description: Seq<char>,
    pub size_bytes: u64,
    pub ram_required: u64,
    pub quantization: Seq<char>,
    pub capabilities: Seq<Seq<char>>,
    pub download_url: Seq<char>,
    pub sha256: Seq<char>,
    pub format: ModelFormat,
    pub tier: ModelTier,
}

impl View for ModelInfo {
    type V = ModelSpec;

    open spec fn view(&self) -> ModelSpec {
        ModelSpec {
            id: self.id@,
            name: self.name@,
            description: self.description@,
            size_bytes: self.size_bytes,
            ram_required: self.ram_required,
            quantization: self.quantization@,
            capabilities: crate::cache::strings_view(self.capabilities@),
            download_url: self.download_url@,
            sha256: self.sha256@,
            format: self.format,
            tier: self.tier,
        }
    }
}

impl Clone for ModelInfo {
    fn clone(&self) -> (r: Self)
        ensures
            r@ == self@,
    {
        ModelInfo {
            id: self.id.clone(),
            name: self.name.clone(),
            description: self.description.clone(),
            size_bytes: self.size_bytes,
            ram_required: self.ram_required,
            quantization: self.quantization.clone(),
            capabilities: crate::config::clone_strings(&self.capabilities),
            download_url: self.download_url.clone(),
            sha256: self.sha256.clone(),
            format: self.format,
            tier: self.tier,
        }
    }
}

/// The views of some models.
pub open spec fn models_view(ms: Seq<ModelInfo>) -> Seq<ModelSpec> {
    ms.map_values(|m: ModelInfo| m@)
}

/// The models the assistant knows of: four local ones and a cloud one.
pub open spec fn default_model_table() -> Seq<ModelSpec> {
    seq![
        ModelSpec {
            id: "llama2-7b-chat-q4"@,
            name: "Llama 2 7B Chat"@,
            description: "Meta's Llama 2 optimized for dialogue. Good balance of speed and quality."@,
            size_bytes: 3800000000,
            ram_required: 5000000000,
            quantization: "Q4_K_M"@,
            capabilities: seq!["chat"@, "general"@],
            download_url: "https://huggingface.co/TheBloke/Llama-2-7B-Chat-GGUF/resolve/main/llama-2-7b-chat.Q4_K_M.gguf"@,
            sha256: ""@,
            format: ModelFormat::GGUF,
            tier: ModelTier::Free,
        },
        ModelSpec {
            id: "codellama-7b-instruct-q4"@,
            name: "CodeLlama 7B Instruct"@,
            description: "Specialized for code generation and analysis. Perfect for file operations."@,
            size_bytes: 3800000000,
            ram_required: 5000000000,
            quantization: "Q4_K_M"@,
            capabilities: seq!["code"@, "instruct"@],
            download_url: "https://huggingface.co/TheBloke/CodeLlama-7B-Instruct-GGUF/resolve/main/codellama-7b-instruct.Q4_K_M.gguf"@,
            sha256: ""@,
            format: ModelFormat::GGUF,
            tier: ModelTier::Free,
        },
        ModelSpec {
            id: "mistral-7b-instruct-q4"@,
            name: "Mistral 7B Instruct"@,
            description: "Fast and efficient. Great for quick file operations."@,
            size_bytes: 4100000000,
            ram_required: 5500000000,
            quantization: "Q4_K_M"@,
            capabilities: seq!["chat"@, "instruct"@],
            download_url: "https://huggingface.co/TheBloke/Mistral-7B-Instruct-v0.2-GGUF/resolve/main/mistral-7b-instruct-v0.2.Q4_K_M.gguf"@,
            sha256: ""@,
            format: ModelFormat::GGUF,
            tier: ModelTier::Free,
        },
        ModelSpec {
            id: "tinyllama-1b-chat"@,
            name: "TinyLlama 1.1B"@,
            description: "Ultra-fast tiny model. Runs on any hardware."@,
            size_bytes: 650000000,
            ram_required: 1000000000,
            quantization: "Q4_K_M"@,
            capabilities: seq!["chat"@, "fast"@],
            download_url: "https://huggingface.co/TheBloke/TinyLlama-1.1B-Chat-v1.0-GGUF/resolve/main/tinyllama-1.1b-chat-v1.0.Q4_K_M.gguf"@,
            sha256: ""@,
            format: ModelFormat::GGUF,
            tier: ModelTier::Free,
        },
        ModelSpec {
            id: "gpt-4-turbo"@,
            name: "GPT-4 Turbo"@,
            description: "OpenAI's most capable model. Requires API key."@,
            size_bytes: 0,
            ram_required: 0,
            quantization: "none"@,
            capabilities: seq!["chat"@, "code"@, "analysis"@],
            download_url: ""@,
            sha256: ""@,
            format: ModelFormat::GGUF,
            tier: ModelTier::Premium,
        },
    ]
}

/// The models the assistant knows of.
pub fn default_models() -> (r: Vec<ModelInfo>)
    ensures
        models_view(r@) == default_model_table(),
{
    let mut r: Vec<ModelInfo> = Vec::new();
    {
        let mut caps: Vec<String> = Vec::new();
        caps.push(String::from_str("chat"));
        caps.push(String::from_str("general"));
        let ghost before = r@;
        r.push(ModelInfo {
            id: String::from_str("llama2-7b-chat-q4"),
            name: String::from_str("Llama 2 7B Chat"),
            description: String::from_str("Meta's Llama 2 optimized for dialogue. Good balance of speed and quality."),
            size_bytes: 3800000000,
            ram_required: 5000000000,
            quantization: String::from_str("Q4_K_M"),
            capabilities: caps,
            download_url: String::from_str("https://huggingface.co/TheBloke/Llama-2-7B-Chat-GGUF/resolve/main/llama-2-7b-chat.Q4_K_M.gguf"),
            sha256: String::from_str(""),
            format: ModelFormat::GGUF,
            tier: ModelTier::Free,
        });
        assert(models_view(r@) =~= models_view(before).push(r@[0]@));
        assert(r@[0]@.capabilities =~= default_model_table()[0].capabilities);
    }
    {
        let mut caps: Vec<String> = Vec::new();
        caps.push(String::from_str("code"));
        caps.push(String::from_str("instruct"));
        let ghost before = r@;
        r.push(ModelInfo {
            id: String::from_str("codellama-7b-instruct-q4"),
            name: String::from_str("CodeLlama 7B Instruct"),
            description: String::from_str("Specialized for code generation and analysis. Perfect for file operations."),
            size_bytes: 3800000000,
            ram_required: 5000000000,
            quantization: String::from_str("Q4_K_M"),
            capabilities: caps,
            download_url: String::from_str("https://huggingface.co/TheBloke/CodeLlama-7B-Instruct-GGUF/resolve/main/codellama-7b-instruct.Q4_K_M.gguf"),
            sha256: String::from_str(""),
            format: ModelFormat::GGUF,
            tier: ModelTier::Free,
        });
        assert(models_view(r@) =~= models_view(before).push(r@[1]@));
        assert(r@[1]@.capabilities =~= default_model_table()[1].capabilities);
    }
    {
        let mut caps: Vec<String> = Vec::new();
        caps.push(String::from_str("chat"));
        caps.push(String::from_str("instruct"));
        let ghost before = r@;
        r.push(ModelInfo {
            id: String::from_str("mistral-7b-instruct-q4"),
            name: String::from_str("Mistral 7B Instruct"),
            description: String::from_str("Fast and efficient. Great for quick file operations."),
            size_bytes: 4100000000,
            ram_required: 5500000000,
            quantization: String::from_str("Q4_K_M"),
            capabilities: caps,
            download_url: String::from_str("https://huggingface.co/TheBloke/Mistral-7B-Instruct-v0.2-GGUF/resolve/main/mistral-7b-instruct-v0.2.Q4_K_M.gguf"),
            sha256: String::from_str(""),
            format: ModelFormat::GGUF,
            tier: ModelTier::Free,
        });
        assert(models_view(r@) =~= models_view(before).push(r@[2]@));
        assert(r@[2]@.capabilities =~= default_model_table()[2].capabilities);
    }
    {
        let mut caps: Vec<String> = Vec::new();
        caps.push(String::from_str("chat"));
        caps.push(String::from_str("fast"));
        let ghost before = r@;
        r.push(ModelInfo {
            id: String::from_str("tinyllama-1b-chat"),
            name: String::from_str("TinyLlama 1.1B"),
            description: String::from_str("Ultra-fast tiny model. Runs on any hardware."),
            size_bytes: 650000000,
            ram_required: 1000000000,
            quantization: String::from_str("Q4_K_M"),
            capabilities: caps,
            download_url: String::from_str("https://huggingface.co/TheBloke/TinyLlama-1.1B-Chat-v1.0-GGUF/resolve/main/tinyllama-1.1b-chat-v1.0.Q4_K_M.gguf"),
            sha256: String::from_str(""),
            format: ModelFormat::GGUF,
            tier: ModelTier::Free,
        });
        assert(models_view(r@) =~= models_view(before).push(r@[3]@));
        assert(r@[3]@.capabilities =~= default_model_table()[3].capabilities);
    }
    {
        let mut caps: Vec<String> = Vec::new();
        caps.push(String::from_str("chat"));
        caps.push(String::from_str("code"));
        caps.push(String::from_str("analysis"));
        let ghost before = r@;
        r.push(ModelInfo {
            id: String::from_str("gpt-4-turbo"),
            name: String::from_str("GPT-4 Turbo"),
            description: String::from_str("OpenAI's most capable model. Requires API key."),
            size_bytes: 0,
            ram_required: 0,
            quantization: String::from_str("none"),
            capabilities: caps,
            download_url: String::from_str(""),
            sha256: String::from_str(""),
            format: ModelFormat::GGUF,
            tier: ModelTier::Premium,
        });
        assert(models_view(r@) =~= models_view(before).push(r@[4]@));
        assert(r@[4]@.capabilities =~= default_model_table()[4].capabilities);
    }
    assert(models_view(r@) =~= default_model_table());
    r
}

/// The position of the model with an identifier.
pub open spec fn model_index(ms: Seq<ModelSpec>, id: Seq<char>) -> Option<int> {
    if exists|i: int| 0 <= i < ms.len() && ms[i].id == id {
        Some(choose|i: int| 0 <= i < ms.len() && ms[i].id == id && forall|j: int| 0 <= j < i ==> ms[j].id != id)
    } else {
        None
    }
}

/// The registry of models, with the time it was last updated (Unix seconds).
#[derive(Debug)]
pub struct ModelRegistry {
    pub models: Vec<ModelInfo>,
    pub last_updated: i64,
}

impl ModelRegistry {
    /// The models.
    pub open spec fn table(&self) -> Seq<ModelSpec> {
        models_view(self.models@)
    }

    /// The models the assistant knows of.
    pub fn default_models() -> (r: Vec<ModelInfo>)
        ensures
            models_view(r@) == default_model_table(),
    {
        default_models()
    }

    /// The first model with an identifier.
    pub fn find(&self, model_id: &str) -> (r: Option<&ModelInfo>)
        ensures
            r matches Some(m) ==> (model_index(self.table(), model_id@) matches Some(i) && m@ == self.table()[i]),
            r is None ==> model_index(self.table(), model_id@) is None,
    {
        let ghost t = self.table();
        let mut i: usize = 0;
        while i < self.models.len()
            invariant
                t == self.table(),
                i <= t.len(),
                forall|j: int| 0 <= j < i ==> t[j].id != model_id@,
            decreases t.len() - i,
        {
            if text::str_eq(self.models[i].id.as_str(), model_id) {
                assert(t[i as int].id == model_id@);
                let ghost k = choose|k: int| 0 <= k < t.len() && t[k].id == model_id@ && forall|j: int| 0 <= j < k ==> t[j].id != model_id@;
                assert(k == i as int) by {
                    if k < i {
                        assert(t[k].id != model_id@);
                    }
                    if k > i {
                        assert(t[i as int].id != model_id@);
                    }
                }
                return Some(&self.models[i]);
            }
            i = i + 1;
        }
        None
    }

    /// The memory a model needs, in bytes.
    pub fn estimate_ram_usage(&self, model_id: &str) -> (r: Option<u64>)
        ensures
            r == (match model_index(self.table(), model_id@) {
                Some(i) => Some(self.table()[i].ram_required),
                None => None,
            }),
    {
        match self.find(model_id) {
            Some(m) => Some(m.ram_required),
            None => None,
        }
    }

    /// Whether a model can run here: it is not a cloud model, and the free
    /// memory (in KiB, where known) covers what it needs.
    pub fn can_run_locally(&self, model_id: &str, available_kib: Option<u64>) -> (r: bool)
        requires
            available_kib matches Some(k) ==> k * 1024 <= u64::MAX,
        ensures
            r == (match model_index(self.table(), model_id@) {
                Some(i) => self.table()[i].tier != ModelTier::Premium && (available_kib matches Some(k)
                    && k * 1024 >= self.table()[i].ram_required),
                None => false,
            }),
    {
        match self.find(model_id) {
            Some(m) => {
                if m.tier == ModelTier::Premium {
                    return false;
                }
                match available_kib {
                    Some(k) => k * 1024 >= m.ram_required,
                    None => false,
                }
            },
            None => false,
        }
    }

    /// Where a model is downloaded from and the file it is saved as; errors
    /// for an unknown model and for a cloud model.
    pub fn download_source(&self, model_id: &str) -> (r: Result<(String, String), String>)
        ensures
            model_index(self.table(), model_id@) is None ==> (r matches Err(e) && e@ == "Model "@ + model_id@
                + " not found"@),
            model_index(self.table(), model_id@) matches Some(i) ==> (if self.table()[i].tier
                == ModelTier::Premium {
                r matches Err(e) && e@ == "Premium models don't need to be downloaded"@
            } else {
                r matches Ok(p) && p.0@ == self.table()[i].download_url && p.1@ == model_id@ + ".gguf"@
            }),
    {
        match self.find(model_id) {
            Some(m) => {
                if m.tier == ModelTier::Premium {
                    return Err(String::from_str("Premium models don't need to be downloaded"));
                }
                let mut file_name = model_id.to_string();
                file_name.append(".gguf");
                Ok((m.download_url.clone(), file_name))
            },
            None => {
                let mut e = String::from_str("Model ");
                e.append(model_id);
                e.append(" not found");
                Err(e)
            },
        }
    }
}

/// The view of a table of downloaded models: identifier and file path.
pub open spec fn downloads_view(v: Seq<(String, String)>) -> Seq<(Seq<char>, Seq<char>)> {
    v.map_values(|p: (String, String)| (p.0@, p.1@))
}

/// The position of an identifier in a table of downloads.
fn find_download(v: &Vec<(String, String)>, id: &str) -> (r: Option<usize>)
    ensures
        match r {
            Some(i) => i < v@.len() && downloads_view(v@)[i as int].0 == id@,
            None => !crate::cache::has_key(downloads_view(v@), id@),
        },
{
    let ghost dv = downloads_view(v@);
    let mut i: usize = 0;
    while i < v.len()
        invariant
            dv == downloads_view(v@),
            i <= v@.len(),
            forall|j: int| 0 <= j < i ==> dv[j].0 != id@,
        decreases v@.len() - i,
    {
        if text::str_eq(v[i].0.as_str(), id) {
            return Some(i);
        }
        i = i + 1;
    }
    assert forall|j: int| 0 <= j < dv.len() implies #[trigger] dv[j].0 != id@ by {}
    None
}

/// Downloaded models and the registry of models.
pub struct ModelManager {
    models_dir: String,
    registry: ModelRegistry,
    downloaded_models: Vec<(String, String)>,
    _active_model: Option<String>,
}

impl ModelManager {
    /// The directory models are saved in.
    pub closed spec fn dir(&self) -> Seq<char> {
        self.models_dir@
    }

    /// The known models.
    pub closed spec fn table(&self) -> Seq<ModelSpec> {
        self.registry.table()
    }

    /// Downloaded models and their files.
    pub closed spec fn downloads(&self) -> Seq<(Seq<char>, Seq<char>)> {
        downloads_view(self.downloaded_models@)
    }

    /// No model is recorded twice.
    pub closed spec fn wf(&self) -> bool {
        crate::cache::distinct_keys(self.downloads())
    }

    /// A manager saving models in a directory, with the default registry
    /// (updated at `now`, Unix seconds) and nothing downloaded.
    pub fn new(models_dir: String, now: i64) -> (r: Self)
        ensures
            r.wf(),
            r.dir() == models_dir@,
            r.table() == default_model_table(),
            r.downloads() == Seq::<(Seq<char>, Seq<char>)>::empty(),
    {
        let r = ModelManager {
            models_dir,
            registry: ModelRegistry { models: default_models(), last_updated: now },
            downloaded_models: Vec::new(),
            _active_model: None,
        };
        assert(r.downloads() =~= Seq::<(Seq<char>, Seq<char>)>::empty());
        r
    }

    /// The known models.
    pub fn list_available_models(&self) -> (r: &[ModelInfo])
        ensures
            models_view(r@) == self.table(),
    {
        self.registry.models.as_slice()
    }

    /// The downloaded models and their files.
    pub fn list_downloaded_models(&self) -> (r: &[(String, String)])
        ensures
            downloads_view(r@) == self.downloads(),
    {
        self.downloaded_models.as_slice()
    }

    /// Whether a model is downloaded.
    pub fn is_model_downloaded(&self, model_id: &str) -> (r: bool)
        ensures
            r == crate::cache::has_key(self.downloads(), model_id@),
    {
        find_download(&self.downloaded_models, model_id).is_some()
    }

    /// The file of a downloaded model.
    pub fn get_model_path(&self, model_id: &str) -> (r: Option<&String>)
        requires
            self.wf(),
        ensures
            match crate::cache::lookup(self.downloads(), model_id@) {
                Some(p) => r matches Some(s) && s@ == p,
                None => r is None,
            },
    {
        match find_download(&self.downloaded_models, model_id) {
            Some(i) => {
                proof {
                    crate::cache::lemma_key_index(self.downloads(), model_id@, i as int);
                }
                Some(&self.downloaded_models[i].1)
            },
            None => None,
        }
    }

    /// Records that a model was saved in a file.
    pub fn record_download(&mut self, model_id: &str, path: String)
        requires
            old(self).wf(),
        ensures
            final(self).wf(),
            final(self).downloads() == crate::cache::insert_key(old(self).downloads(), model_id@, path@),
            final(self).table() == old(self).table(),
            final(self).dir() == old(self).dir(),
    {
        proof {
            crate::cache::lemma_insert_key(self.downloads(), model_id@, path@);
        }
        match find_download(&self.downloaded_models, model_id) {
            Some(i) => {
                proof {
                    crate::cache::lemma_key_index(self.downloads(), model_id@, i as int);
                }
                self.downloaded_models[i] = (model_id.to_string(), path);
            },
            None => {
                self.downloaded_models.push((model_id.to_string(), path));
            },
        }
        assert(self.downloads() =~= crate::cache::insert_key(old(self).downloads(), model_id@, path@));
    }

    /// Forgets a downloaded model and hands back its file, for deletion.
    pub fn forget_download(&mut self, model_id: &str) -> (r: Option<String>)
        requires
            old(self).wf(),
        ensures
            final(self).wf(),
            final(self).downloads() == crate::cache::remove_key(old(self).downloads(), model_id@),
            match crate::cache::lookup(old(self).downloads(), model_id@) {
                Some(p) => r matches Some(s) && s@ == p,
                None => r is None,
            },
            final(self).table() == old(self).table(),
            final(self).dir() == old(self).dir(),
    {
        proof {
            crate::cache::lemma_remove_key(self.downloads(), model_id@);
        }
        match find_download(&self.downloaded_models, model_id) {
            Some(i) => {
                proof {
                    crate::cache::lemma_key_index(self.downloads(), model_id@, i as int);
                }
                let (_, path) = self.downloaded_models.remove(i);
                assert(self.downloads() =~= crate::cache::remove_key(old(self).downloads(), model_id@));
                Some(path)
            },
            None => None,
        }
    }

    /// The memory a model needs, in bytes.
    pub fn estimate_ram_usage(&self, model_id: &str) -> (r: Option<u64>)
        ensures
            r == (match model_index(self.table(), model_id@) {
                Some(i) => Some(self.table()[i].ram_required),
                None => None,
            }),
    {
        self.registry.estimate_ram_usage(model_id)
    }

    /// Whether a model can run here, given the free memory in KiB.
    pub fn can_run_locally(&self, model_id: &str, available_kib: Option<u64>) -> (r: bool)
        requires
            available_kib matches Some(k) ==> k * 1024 <= u64::MAX,
        ensures
            r == (match model_index(self.table(), model_id@) {
                Some(i) => self.table()[i].tier != ModelTier::Premium && (available_kib matches Some(k)
                    && k * 1024 >= self.table()[i].ram_required),
                None => false,
            }),
    {
        self.registry.can_run_locally(model_id, available_kib)
    }

    /// Where a model is downloaded from and the path it is saved at.
    pub fn download_target(&self, model_id: &str) -> (r: Result<(String, String), String>)
        ensures
            model_index(self.table(), model_id@) is None ==> (r matches Err(e) && e@ == "Model "@ + model_id@
                + " not found"@),
            model_index(self.table(), model_id@) matches Some(i) ==> (if self.table()[i].tier
                == ModelTier::Premium {
                r matches Err(e) && e@ == "Premium models don't need to be downloaded"@
            } else {
                r matches Ok(p) && p.0@ == self.table()[i].download_url && p.1@ == crate::paths::path_join(
                    self.dir(),
                    model_id@ + ".gguf"@,
                )
            }),
    {
        match self.registry.download_source(model_id) {
            Ok((url, file_name)) => Ok((url, crate::paths::join(self.models_dir.as_str(), file_name.as_str()))),
            Err(e) => Err(e),
        }
    }
}

} // verus!
