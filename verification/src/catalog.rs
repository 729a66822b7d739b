//! Catalog assembly: from decoded file descriptors to the services and
//! methods of the catalog, with every required field checked on the way.
//!
//! A descriptor is read in a fixed order: the services of a file in the
//! order of the file; for one service its methods in order, then the file's
//! package, then the service's name; for one method its name, its request
//! type, its response type. The first field found missing is the one
//! reported, and nothing is produced.

use crate::collect::{
    collect, gather, lemma_collect_err, lemma_collect_fails, lemma_collect_next, lemma_collect_ok,
    lemma_gather_err, lemma_gather_fails, lemma_gather_next, lemma_gather_ok,
};
use crate::descriptor::{
    FileDescriptor, FileDescriptorView, MethodDescriptor, MethodDescriptorView, ServiceDescriptor,
    ServiceDescriptorView,
};
use crate::error::{
    outcome_view, MissingField, MissingFieldView, ReflectionError, ReflectionErrorView,
};
use crate::service_info::{MethodInfo, MethodInfoView, ServiceInfo, ServiceInfoView};
use vstd::prelude::*;

verus! {

/// The catalog's method for one method definition of the service named
/// `service`, or the first field that the definition lacks.
pub open spec fn method_entry(
    service: Option<Seq<char>>,
    method: MethodDescriptorView,
) -> Result<MethodInfoView, ReflectionErrorView> {
    match (method.name, method.input_type, method.output_type) {
        (None, _, _) => Err(
            ReflectionErrorView::MissingField(MissingFieldView::MethodName { service }),
        ),
        (Some(name), None, _) => Err(
            ReflectionErrorView::MissingField(
                MissingFieldView::RequestType { method: name, service },
            ),
        ),
        (Some(name), Some(_), None) => Err(
            ReflectionErrorView::MissingField(
                MissingFieldView::ResponseType { method: name, service },
            ),
        ),
        (Some(name), Some(request), Some(response)) => Ok(
            MethodInfoView { name, request, response },
        ),
    }
}

/// [`method_entry`] for the service named `service`, as a step.
pub open spec fn method_step(service: Option<Seq<char>>) -> spec_fn(
    MethodDescriptorView,
) -> Result<MethodInfoView, ReflectionErrorView> {
    |method: MethodDescriptorView| method_entry(service, method)
}

/// The catalog's methods for the method definitions of one service, in
/// order, or what the first incomplete definition lacks.
pub open spec fn method_entries(
    service: Option<Seq<char>>,
    methods: Seq<MethodDescriptorView>,
) -> Result<Seq<MethodInfoView>, ReflectionErrorView> {
    collect(methods, method_step(service))
}

/// The catalog's service for one service definition of a file with the given
/// package: its methods are checked first, then the package, then the name.
pub open spec fn service_entry(
    package: Option<Seq<char>>,
    service: ServiceDescriptorView,
) -> Result<ServiceInfoView, ReflectionErrorView> {
    match method_entries(service.name, service.methods) {
        Err(error) => Err(error),
        Ok(methods) => match (package, service.name) {
            (None, _) => Err(
                ReflectionErrorView::MissingField(
                    MissingFieldView::Package { service: service.name },
                ),
            ),
            (Some(package), None) => Err(
                ReflectionErrorView::MissingField(MissingFieldView::ServiceName { package }),
            ),
            (Some(package), Some(name)) => Ok(ServiceInfoView { package, service: name, methods }),
        },
    }
}

/// [`service_entry`] for a file with the given package, as a step.
pub open spec fn service_step(package: Option<Seq<char>>) -> spec_fn(
    ServiceDescriptorView,
) -> Result<ServiceInfoView, ReflectionErrorView> {
    |service: ServiceDescriptorView| service_entry(package, service)
}

/// The catalog's services for one file, in the order of the file. A file
/// without services gives none.
pub open spec fn file_entries(file: FileDescriptorView) -> Result<
    Seq<ServiceInfoView>,
    ReflectionErrorView,
> {
    collect(file.services, service_step(file.package))
}

/// [`file_entries`], as a step.
pub open spec fn file_step() -> spec_fn(FileDescriptorView) -> Result<
    Seq<ServiceInfoView>,
    ReflectionErrorView,
> {
    |file: FileDescriptorView| file_entries(file)
}

/// The catalog's services for a sequence of files: those of the first file,
/// then those of the second, and so on; or the first missing field.
pub open spec fn catalog_entries(files: Seq<FileDescriptorView>) -> Result<
    Seq<ServiceInfoView>,
    ReflectionErrorView,
> {
    gather(files, file_step())
}

/// A copy of an optional string.
fn copy_of(text: &Option<String>) -> (copy: Option<String>)
    ensures
        copy == *text,
{
    match text {
        Some(text) => Some(text.clone()),
        None => None,
    }
}

/// Checks one method definition of the service named `service` and builds
/// the catalog's method from it.
pub fn materialize_method(service: &Option<String>, method: &MethodDescriptor) -> (made: Result<
    MethodInfo,
    ReflectionError,
>)
    ensures
        outcome_view(made) == method_entry(service.deep_view(), method@),
{
    let name = match &method.name {
        Some(name) => name.clone(),
        None => {
            return Err(
                ReflectionError::MissingField(
                    MissingField::MethodName { service: copy_of(service) },
                ),
            );
        },
    };
    let request = match &method.input_type {
        Some(request) => request.clone(),
        None => {
            return Err(
                ReflectionError::MissingField(
                    MissingField::RequestType { method: name, service: copy_of(service) },
                ),
            );
        },
    };
    let response = match &method.output_type {
        Some(response) => response.clone(),
        None => {
            return Err(
                ReflectionError::MissingField(
                    MissingField::ResponseType { method: name, service: copy_of(service) },
                ),
            );
        },
    };
    Ok(MethodInfo { name, request, response })
}

/// Checks the method definitions of the service named `service` in order
/// and builds the catalog's methods; stops at the first incomplete one.
pub fn materialize_methods(service: &Option<String>, methods: &Vec<MethodDescriptor>) -> (made:
    Result<Vec<MethodInfo>, ReflectionError>)
    ensures
        outcome_view(made) == method_entries(service.deep_view(), methods.deep_view()),
{
    let ghost step = method_step(service.deep_view());
    let ghost items = methods.deep_view();
    let mut infos: Vec<MethodInfo> = Vec::new();
    let mut done: usize = 0;
    assert(infos.deep_view() =~= Seq::empty());
    while done < methods.len()
        invariant
            done <= methods.len(),
            step == method_step(service.deep_view()),
            items == methods.deep_view(),
            collect(items.take(done as int), step) == Ok::<
                Seq<MethodInfoView>,
                ReflectionErrorView,
            >(infos.deep_view()),
        decreases methods.len() - done,
    {
        proof {
            lemma_collect_next(items, step, done as int);
        }
        match materialize_method(service, &methods[done]) {
            Ok(info) => {
                let ghost before = infos.deep_view();
                infos.push(info);
                assert(infos.deep_view() =~= before.push(info@));
            },
            Err(error) => {
                proof {
                    lemma_collect_fails(items, step, done + 1);
                }
                return Err(error);
            },
        }
        done += 1;
    }
    assert(items.take(done as int) =~= items);
    Ok(infos)
}

/// Checks one service definition of a file with the given package and
/// builds the catalog's service from it.
pub fn materialize_service(package: &Option<String>, service: &ServiceDescriptor) -> (made: Result<
    ServiceInfo,
    ReflectionError,
>)
    ensures
        outcome_view(made) == service_entry(package.deep_view(), service@),
{
    let methods = match materialize_methods(&service.name, &service.methods) {
        Ok(methods) => methods,
        Err(error) => {
            return Err(error);
        },
    };
    let package = match package {
        Some(package) => package.clone(),
        None => {
            return Err(
                ReflectionError::MissingField(
                    MissingField::Package { service: copy_of(&service.name) },
                ),
            );
        },
    };
    let name = match &service.name {
        Some(name) => name.clone(),
        None => {
            return Err(ReflectionError::MissingField(MissingField::ServiceName { package }));
        },
    };
    Ok(ServiceInfo { package, service: name, methods })
}

/// Checks the service definitions of one file in order and builds the
/// catalog's services; stops at the first missing field.
pub fn materialize_file(file: &FileDescriptor) -> (made: Result<Vec<ServiceInfo>, ReflectionError>)
    ensures
        outcome_view(made) == file_entries(file@),
{
    let ghost step = service_step(file.package.deep_view());
    let ghost items = file.services.deep_view();
    let mut infos: Vec<ServiceInfo> = Vec::new();
    let mut done: usize = 0;
    assert(infos.deep_view() =~= Seq::empty());
    while done < file.services.len()
        invariant
            done <= file.services.len(),
            step == service_step(file.package.deep_view()),
            items == file.services.deep_view(),
            collect(items.take(done as int), step) == Ok::<
                Seq<ServiceInfoView>,
                ReflectionErrorView,
            >(infos.deep_view()),
        decreases file.services.len() - done,
    {
        proof {
            lemma_collect_next(items, step, done as int);
        }
        match materialize_service(&file.package, &file.services[done]) {
            Ok(info) => {
                let ghost before = infos.deep_view();
                infos.push(info);
                assert(infos.deep_view() =~= before.push(info@));
            },
            Err(error) => {
                proof {
                    lemma_collect_fails(items, step, done + 1);
                }
                return Err(error);
            },
        }
        done += 1;
    }
    assert(items.take(done as int) =~= items);
    Ok(infos)
}

/// Builds the catalog's services for a sequence of files: file by file in
/// order, each file's services behind those of the files before it. Stops
/// at the first missing field and then returns no service at all.
pub fn materialize_files(files: &Vec<FileDescriptor>) -> (made: Result<
    Vec<ServiceInfo>,
    ReflectionError,
>)
    ensures
        outcome_view(made) == catalog_entries(files.deep_view()),
{
    let ghost items = files.deep_view();
    let mut infos: Vec<ServiceInfo> = Vec::new();
    let mut done: usize = 0;
    assert(infos.deep_view() =~= Seq::empty());
    while done < files.len()
        invariant
            done <= files.len(),
            items == files.deep_view(),
            gather(items.take(done as int), file_step()) == Ok::<
                Seq<ServiceInfoView>,
                ReflectionErrorView,
            >(infos.deep_view()),
        decreases files.len() - done,
    {
        proof {
            lemma_gather_next(items, file_step(), done as int);
        }
        match materialize_file(&files[done]) {
            Ok(mut more) => {
                let ghost before = infos.deep_view();
                let ghost added = more.deep_view();
                infos.append(&mut more);
                assert(infos.deep_view() =~= before + added);
            },
            Err(error) => {
                proof {
                    lemma_gather_fails(items, file_step(), done + 1);
                }
                return Err(error);
            },
        }
        done += 1;
    }
    assert(items.take(done as int) =~= items);
    Ok(infos)
}

/// Whether a method definition comes without its request type or without
/// its response type.
pub open spec fn lacks_type(method: MethodDescriptorView) -> bool {
    method.input_type is None || method.output_type is None
}

/// Whether some method of some service of one of the files lacks a type.
pub open spec fn has_untyped_method(files: Seq<FileDescriptorView>) -> bool {
    exists|file: int, service: int, method: int|
        {
            &&& 0 <= file < files.len()
            &&& 0 <= service < files[file].services.len()
            &&& 0 <= method < files[file].services[service].methods.len()
            &&& lacks_type(#[trigger] files[file].services[service].methods[method])
        }
}

/// Assembly fails in one way only: whatever error comes of a sequence of
/// files is a missing field.
pub proof fn lemma_only_missing_fields(files: Seq<FileDescriptorView>)
    requires
        catalog_entries(files) is Err,
    ensures
        catalog_entries(files)->Err_0 is MissingField,
{
    lemma_gather_err(files, file_step());
    let at = choose|at: int|
        {
            &&& 0 <= at < files.len()
            &&& #[trigger] file_step()(files[at]) == Err::<
                Seq<ServiceInfoView>,
                ReflectionErrorView,
            >(catalog_entries(files)->Err_0)
            &&& forall|i: int| 0 <= i < at ==> (#[trigger] file_step()(files[i])) is Ok
        };
    let file = files[at];
    let step = service_step(file.package);
    lemma_collect_err(file.services, step);
    let at = choose|at: int|
        {
            &&& 0 <= at < file.services.len()
            &&& #[trigger] step(file.services[at]) == Err::<ServiceInfoView, ReflectionErrorView>(
                collect(file.services, step)->Err_0,
            )
            &&& forall|i: int| 0 <= i < at ==> (#[trigger] step(file.services[i])) is Ok
        };
    let service = file.services[at];
    if method_entries(service.name, service.methods) is Err {
        let step = method_step(service.name);
        lemma_collect_err(service.methods, step);
    }
}

/// No catalog from incomplete methods: where any method of any service of
/// the files lacks its request type or its response type, assembly fails
/// with a missing field and yields no service, whatever else the files
/// hold.
pub proof fn lemma_untyped_method_fails(files: Seq<FileDescriptorView>)
    requires
        has_untyped_method(files),
    ensures
        catalog_entries(files) is Err,
        catalog_entries(files)->Err_0 is MissingField,
{
    let (file, service, method) = choose|file: int, service: int, method: int|
        {
            &&& 0 <= file < files.len()
            &&& 0 <= service < files[file].services.len()
            &&& 0 <= method < files[file].services[service].methods.len()
            &&& lacks_type(#[trigger] files[file].services[service].methods[method])
        };
    let in_file = files[file];
    let in_service = in_file.services[service];
    assert(method_step(in_service.name)(in_service.methods[method]) is Err);
    lemma_collect_ok(in_service.methods, method_step(in_service.name));
    assert(service_step(in_file.package)(in_file.services[service]) is Err);
    lemma_collect_ok(in_file.services, service_step(in_file.package));
    assert(file_step()(files[file]) is Err);
    lemma_gather_ok(files, file_step());
    lemma_only_missing_fields(files);
}

} // verus!
