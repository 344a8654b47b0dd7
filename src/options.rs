use vstd::prelude::*;

verus! {

/// The configuration an `OpenOptions` builder has accumulated.
///
/// `mode` is `None` until a mode is set; the platform's default for new files
/// applies then.
#[derive(Clone, Copy, Debug, PartialEq, Eq, Structural)]
pub struct OpenConfig {
    pub read: bool,
    pub write: bool,
    pub append: bool,
    pub truncate: bool,
    pub create: bool,
    pub create_new: bool,
    pub mode: Option<u32>,
}

impl OpenConfig {
    /// The configuration of a fresh builder: every flag unset, no mode.
    pub open spec fn fresh() -> OpenConfig {
        OpenConfig {
            read: false,
            write: false,
            append: false,
            truncate: false,
            create: false,
            create_new: false,
            mode: None,
        }
    }

    /// This configuration with `read` set to `value`.
    pub open spec fn with_read(self, value: bool) -> OpenConfig {
        OpenConfig { read: value, ..self }
    }

    /// This configuration with `write` set to `value`.
    pub open spec fn with_write(self, value: bool) -> OpenConfig {
        OpenConfig { write: value, ..self }
    }

    /// This configuration with `append` set to `value`.
    pub open spec fn with_append(self, value: bool) -> OpenConfig {
        OpenConfig { append: value, ..self }
    }

    /// This configuration with `truncate` set to `value`.
    pub open spec fn with_truncate(self, value: bool) -> OpenConfig {
        OpenConfig { truncate: value, ..self }
    }

    /// This configuration with `create` set to `value`.
    pub open spec fn with_create(self, value: bool) -> OpenConfig {
        OpenConfig { create: value, ..self }
    }

    /// This configuration with `create_new` set to `value`.
    pub open spec fn with_create_new(self, value: bool) -> OpenConfig {
        OpenConfig { create_new: value, ..self }
    }

    /// This configuration with the mode set to `mode`.
    pub open spec fn with_mode(self, mode: u32) -> OpenConfig {
        OpenConfig { mode: Some(mode), ..self }
    }
}

/// A builder describing how a file is to be opened.
#[derive(Debug)]
pub struct OpenOptions {
    config: OpenConfig,
}

impl View for OpenOptions {
    type V = OpenConfig;

    closed spec fn view(&self) -> OpenConfig {
        self.config
    }
}

impl OpenOptions {
    /// A builder with every flag unset and no mode.
    pub fn new() -> (r: OpenOptions)
        ensures
            r@ == OpenConfig::fresh(),
    {
        OpenOptions {
            config: OpenConfig {
                read: false,
                write: false,
                append: false,
                truncate: false,
                create: false,
                create_new: false,
                mode: None,
            },
        }
    }

    /// Sets whether the file is opened for reading.
    pub fn read(&mut self, read: bool) -> (r: &mut Self)
        ensures
            r@ == old(self)@.with_read(read),
            *final(self) == *final(r),
    {
        self.config.read = read;
        self
    }

    /// Sets whether the file is opened for writing.
    pub fn write(&mut self, write: bool) -> (r: &mut Self)
        ensures
            r@ == old(self)@.with_write(write),
            *final(self) == *final(r),
    {
        self.config.write = write;
        self
    }

    /// Sets appending mode: each write goes to the end of the file.
    pub fn append(&mut self, append: bool) -> (r: &mut Self)
        ensures
            r@ == old(self)@.with_append(append),
            *final(self) == *final(r),
    {
        self.config.append = append;
        self
    }

    /// Sets truncation to length zero when the file is opened.
    pub fn truncate(&mut self, truncate: bool) -> (r: &mut Self)
        ensures
            r@ == old(self)@.with_truncate(truncate),
            *final(self) == *final(r),
    {
        self.config.truncate = truncate;
        self
    }

    /// Sets creation of the file when it is missing.
    pub fn create(&mut self, create: bool) -> (r: &mut Self)
        ensures
            r@ == old(self)@.with_create(create),
            *final(self) == *final(r),
    {
        self.config.create = create;
        self
    }

    /// Sets creation of a new file, failing when the path already exists.
    pub fn create_new(&mut self, create_new: bool) -> (r: &mut Self)
        ensures
            r@ == old(self)@.with_create_new(create_new),
            *final(self) == *final(r),
    {
        self.config.create_new = create_new;
        self
    }

    /// Sets the permission bits a newly created file gets.
    pub fn mode(&mut self, mode: u32) -> (r: &mut Self)
        ensures
            r@ == old(self)@.with_mode(mode),
            *final(self) == *final(r),
    {
        self.config.mode = Some(mode);
        self
    }

    /// The configuration accumulated so far.
    pub fn config(&self) -> (r: OpenConfig)
        ensures
            r == self@,
    {
        self.config
    }
}

/// The configuration a `DirBuilder` has accumulated.
///
/// `mode` is `None` until a mode is set; the platform's default for new
/// directories applies then.
#[derive(Clone, Copy, Debug, PartialEq, Eq, Structural)]
pub struct DirConfig {
    pub recursive: bool,
    pub mode: Option<u32>,
}

impl DirConfig {
    /// The configuration of a fresh builder: not recursive, no mode.
    pub open spec fn fresh() -> DirConfig {
        DirConfig { recursive: false, mode: None }
    }

    /// This configuration with `recursive` set to `value`.
    pub open spec fn with_recursive(self, value: bool) -> DirConfig {
        DirConfig { recursive: value, ..self }
    }

    /// This configuration with the mode set to `mode`.
    pub open spec fn with_mode(self, mode: u32) -> DirConfig {
        DirConfig { mode: Some(mode), ..self }
    }
}

/// A builder describing how a directory is to be created.
#[derive(Debug)]
pub struct DirBuilder {
    config: DirConfig,
}

impl View for DirBuilder {
    type V = DirConfig;

    closed spec fn view(&self) -> DirConfig {
        self.config
    }
}

impl DirBuilder {
    /// A builder that is not recursive and sets no mode.
    pub fn new() -> (r: DirBuilder)
        ensures
            r@ == DirConfig::fresh(),
    {
        DirBuilder { config: DirConfig { recursive: false, mode: None } }
    }

    /// Sets whether missing ancestors are created along with the directory.
    pub fn recursive(&mut self, recursive: bool) -> (r: &mut Self)
        ensures
            r@ == old(self)@.with_recursive(recursive),
            *final(self) == *final(r),
    {
        self.config.recursive = recursive;
        self
    }

    /// Sets the permission bits a newly created directory gets.
    pub fn mode(&mut self, mode: u32) -> (r: &mut Self)
        ensures
            r@ == old(self)@.with_mode(mode),
            *final(self) == *final(r),
    {
        self.config.mode = Some(mode);
        self
    }

    /// The configuration accumulated so far.
    pub fn config(&self) -> (r: DirConfig)
        ensures
            r == self@,
    {
        self.config
    }
}

/// Setting a flag or the mode of an `OpenOptions` builder twice in a row, to
/// the same value, leaves the builder as setting it once does.
pub proof fn open_options_set_twice(o: OpenOptions, value: bool, mode: u32)
    ensures
        o@.with_read(value).with_read(value) == o@.with_read(value),
        o@.with_write(value).with_write(value) == o@.with_write(value),
        o@.with_append(value).with_append(value) == o@.with_append(value),
        o@.with_truncate(value).with_truncate(value) == o@.with_truncate(value),
        o@.with_create(value).with_create(value) == o@.with_create(value),
        o@.with_create_new(value).with_create_new(value) == o@.with_create_new(value),
        o@.with_mode(mode).with_mode(mode) == o@.with_mode(mode),
{
}

/// Setting the recursive flag or the mode of a `DirBuilder` twice in a row, to
/// the same value, leaves the builder as setting it once does.
pub proof fn dir_builder_set_twice(d: DirBuilder, value: bool, mode: u32)
    ensures
        d@.with_recursive(value).with_recursive(value) == d@.with_recursive(value),
        d@.with_mode(mode).with_mode(mode) == d@.with_mode(mode),
{
}

} // verus!
