use vstd::prelude::*;
use crate::text::concat3;

verus! {

/// The manifest of a PowerShell module, as far as a service reads it.
pub struct PSModuleManifest {
    pub module_version: String,
    pub company_name: String,
    pub description: String,
}

/// The manifest of a service that runs functions of a PowerShell module.
/// Missing optional entries fall back on the module's manifest or on the
/// service name.
pub struct ServiceManifest {
    pub service_name: String,
    pub display_name: Option<String>,
    pub description: Option<String>,
    pub company_name: Option<String>,
    pub working_dir: String,
    pub module_name: Option<String>,
    pub start_command: String,
    pub stop_command: String,
}

/// The text in `o`, or `d` where there is none.
pub open spec fn or_else(o: Option<String>, d: Seq<char>) -> Seq<char> {
    match o {
        Some(s) => s@,
        None => d,
    }
}

impl ServiceManifest {
    /// The module that the service runs: the one named in the manifest, or
    /// else the module of the service's own name.
    pub fn get_module_name(&self) -> (r: &str)
        ensures
            r@ == or_else(self.module_name, self.service_name@),
    {
        match &self.module_name {
            Some(m) => m.as_str(),
            None => self.service_name.as_str(),
        }
    }
}

/// A service that runs functions of a PowerShell module, with every entry
/// resolved.
pub struct CmdletService {
    pub service_name: String,
    pub display_name: String,
    pub description: String,
    pub company_name: String,
    pub working_dir: String,
    pub module_name: String,
    pub start_command: String,
    pub stop_command: String,
}

/// The name of the manifest of a service whose executable is named `base`.
pub open spec fn manifest_name(base: Seq<char>) -> Seq<char> {
    base + ".service.json"@
}

/// The name of the service manifest that belongs to the executable named
/// `base` (without extension); where it is missing, the manifest is read
/// from `service.json` beside the executable.
pub fn manifest_file_name(base: &str) -> (r: String)
    ensures
        r@ == manifest_name(base@),
{
    let mut r = String::from_str(base);
    r.append(".service.json");
    r
}

/// The PowerShell script that imports module `module` and runs `function`.
pub open spec fn cmdlet_script(module: Seq<char>, function: Seq<char>) -> Seq<char> {
    "Import-Module -Name "@ + module + ";\n"@ + function
}

/// The PowerShell query for the directory of module `module`.
pub open spec fn module_base_query(module: Seq<char>) -> Seq<char> {
    "Get-Module -Name "@ + module + " -ListAvailable | Select-Object -First 1 | foreach { $_.ModuleBase }"@
}

/// The PowerShell query that prints the manifest of module `module`, found
/// in directory `base`, as JSON.
pub open spec fn module_manifest_query(base: Seq<char>, module: Seq<char>) -> Seq<char> {
    "Import-PowerShellDataFile -Path \""@ + base + "\\"@ + module + ".psd1\" | ConvertTo-Json"@
}

/// The PowerShell query for the directory of module `module_name`.
pub fn module_base_command(module_name: &str) -> (r: String)
    ensures
        r@ == module_base_query(module_name@),
{
    concat3(
        "Get-Module -Name ",
        module_name,
        " -ListAvailable | Select-Object -First 1 | foreach { $_.ModuleBase }",
    )
}

/// The PowerShell query that prints the manifest of module `module_name`,
/// found in directory `module_base`, as JSON.
pub fn module_manifest_command(module_base: &str, module_name: &str) -> (r: String)
    ensures
        r@ == module_manifest_query(module_base@, module_name@),
{
    let mut r = concat3("Import-PowerShellDataFile -Path \"", module_base, "\\");
    r.append(module_name);
    r.append(".psd1\" | ConvertTo-Json");
    r
}

fn copy_or(o: &Option<String>, d: &str) -> (r: String)
    ensures
        r@ == or_else(*o, d@),
{
    match o {
        Some(s) => s.clone(),
        None => String::from_str(d),
    }
}

impl CmdletService {
    /// The service that `service_manifest` describes, with the manifest of
    /// its module: a missing display name is the service name, and a missing
    /// description or company name is the module's.
    pub fn load(service_manifest: &ServiceManifest, module_manifest: &PSModuleManifest) -> (r: CmdletService)
        ensures
            r.service_name@ == service_manifest.service_name@,
            r.display_name@ == or_else(service_manifest.display_name, service_manifest.service_name@),
            r.description@ == or_else(service_manifest.description, module_manifest.description@),
            r.company_name@ == or_else(service_manifest.company_name, module_manifest.company_name@),
            r.working_dir@ == service_manifest.working_dir@,
            r.module_name@ == or_else(service_manifest.module_name, service_manifest.service_name@),
            r.start_command@ == service_manifest.start_command@,
            r.stop_command@ == service_manifest.stop_command@,
    {
        let module_name = String::from_str(service_manifest.get_module_name());
        CmdletService {
            service_name: service_manifest.service_name.clone(),
            display_name: copy_or(&service_manifest.display_name, service_manifest.service_name.as_str()),
            description: copy_or(&service_manifest.description, module_manifest.description.as_str()),
            company_name: copy_or(&service_manifest.company_name, module_manifest.company_name.as_str()),
            working_dir: service_manifest.working_dir.clone(),
            module_name,
            start_command: service_manifest.start_command.clone(),
            stop_command: service_manifest.stop_command.clone(),
        }
    }

    /// The service's name.
    pub fn get_service_name(&self) -> (r: &str)
        ensures
            r@ == self.service_name@,
    {
        self.service_name.as_str()
    }

    /// The service's display name.
    pub fn get_display_name(&self) -> (r: &str)
        ensures
            r@ == self.display_name@,
    {
        self.display_name.as_str()
    }

    /// The description that the service is registered with.
    pub fn get_description(&self) -> (r: &str)
        ensures
            r@ == self.description@,
    {
        self.description.as_str()
    }

    /// The module that the service runs.
    pub fn get_module_name(&self) -> (r: &str)
        ensures
            r@ == self.module_name@,
    {
        self.module_name.as_str()
    }

    /// The function that starts the service's work.
    pub fn get_start_command(&self) -> (r: &str)
        ensures
            r@ == self.start_command@,
    {
        self.start_command.as_str()
    }

    /// The function that stops the service's work.
    pub fn get_stop_command(&self) -> (r: &str)
        ensures
            r@ == self.stop_command@,
    {
        self.stop_command.as_str()
    }

    /// The PowerShell script that starts the service's work; the host runs
    /// it in the service's working directory.
    pub fn start(&self) -> (r: String)
        ensures
            r@ == cmdlet_script(self.module_name@, self.start_command@),
    {
        concat3("Import-Module -Name ", self.get_module_name(), ";\n").concat(self.get_start_command())
    }

    /// The PowerShell script that stops the service's work; the host runs it
    /// in the service's working directory.
    pub fn stop(&self) -> (r: String)
        ensures
            r@ == cmdlet_script(self.module_name@, self.stop_command@),
    {
        concat3("Import-Module -Name ", self.get_module_name(), ";\n").concat(self.get_stop_command())
    }
}

} // verus!
