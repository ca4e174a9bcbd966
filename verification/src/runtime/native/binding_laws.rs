//! Which native method is bound to which class, name and descriptor.

use vstd::prelude::*;

use super::java_io::{self, JavaIo};
use super::java_lang::{self, JavaLang};
use super::java_lang_invoke::{self, JavaLangInvoke};
use super::jdk_internal::{self, JdkInternal};
use super::jdk_internal_loader::{self, JdkInternalLoader};
use super::jdk_internal_reflect::{self, JdkInternalReflect};
use super::sun_nio_fs::{self, SunNioFs};
use super::registry::Key;
use super::{built_in, invoked, outcome, Native};
use crate::runtime::slot::Reference;
use crate::runtime::value::Value;
use crate::runtime::vm::{popped, pushed, State};

verus! {

/// The native methods of `sun.nio.fs` are bound to their names, and no other class is affected.
pub proof fn law_bindings_of_sun_nio_fs(m: Map<Key, Native>)
    ensures
        ({
            let bound = sun_nio_fs::registered(m);
            &&& bound.get(("sun/nio/fs/WindowsNativeDispatcher"@, "initIDs"@, "()V"@)) == Some(Native::SunNioFs(SunNioFs::InitIds))
            &&& forall|other: Key| other.0 != "sun/nio/fs/WindowsNativeDispatcher"@ ==> #[trigger] bound.get(other) == m.get(other)
        }),
{
}

/// The native methods of `jdk.internal.loader` are bound to their names, and no other class is affected.
pub proof fn law_bindings_of_jdk_internal_loader(m: Map<Key, Native>)
    ensures
        ({
            let bound = jdk_internal_loader::registered(m);
            &&& bound.get(("jdk/internal/loader/NativeLibraries"@, "load"@, "(Ljdk/internal/loader/NativeLibraries$NativeLibraryImpl;Ljava/lang/String;ZZ)Z"@)) == Some(Native::JdkInternalLoader(JdkInternalLoader::Load))
            &&& bound.get(("jdk/internal/loader/NativeLibraries"@, "unload"@, "(Ljava/lang/String;ZJ)V"@)) == Some(Native::JdkInternalLoader(JdkInternalLoader::Unload))
            &&& bound.get(("jdk/internal/loader/NativeLibraries"@, "findBuiltinLib"@, "(Ljava/lang/String;)Ljava/lang/String;"@)) == Some(Native::JdkInternalLoader(JdkInternalLoader::FindBuiltinLib))
            &&& bound.get(("jdk/internal/loader/NativeLibrary"@, "findEntry0"@, "(JLjava/lang/String;)J"@)) == Some(Native::JdkInternalLoader(JdkInternalLoader::FindEntry))
            &&& bound.get(("jdk/internal/loader/BootLoader"@, "setBootLoaderUnnamedModule0"@, "(Ljava/lang/Module;)V"@)) == Some(Native::JdkInternalLoader(JdkInternalLoader::SetBootLoaderUnnamedModule))
            &&& forall|other: Key| other.0 != "jdk/internal/loader/NativeLibraries"@ && other.0 != "jdk/internal/loader/NativeLibrary"@ && other.0 != "jdk/internal/loader/BootLoader"@ ==> #[trigger] bound.get(other) == m.get(other)
        }),
{
    reveal_strlit("findBuiltinLib");
    reveal_strlit("findEntry0");
    reveal_strlit("load");
    reveal_strlit("setBootLoaderUnnamedModule0");
    reveal_strlit("unload");
    assert("findBuiltinLib"@.len() == 14);
    assert("findEntry0"@.len() == 10);
    assert("load"@.len() == 4);
    assert("setBootLoaderUnnamedModule0"@.len() == 27);
    assert("unload"@.len() == 6);
}

/// The native methods of `java.io` are bound to their names, and no other class is affected.
pub proof fn law_bindings_of_java_io(m: Map<Key, Native>)
    ensures
        ({
            let bound = java_io::registered(m);
            &&& bound.get(("java/io/WinNTFileSystem"@, "initIDs"@, "()V"@)) == Some(Native::JavaIo(JavaIo::InitIds))
            &&& bound.get(("java/io/FileDescriptor"@, "initIDs"@, "()V"@)) == Some(Native::JavaIo(JavaIo::InitIds))
            &&& bound.get(("java/io/FileDescriptor"@, "getHandle"@, "(I)J"@)) == Some(Native::JavaIo(JavaIo::GetHandle))
            &&& bound.get(("java/io/FileDescriptor"@, "getAppend"@, "(I)Z"@)) == Some(Native::JavaIo(JavaIo::GetAppend))
            &&& bound.get(("java/io/WinNTFileSystem"@, "canonicalize0"@, "(Ljava/lang/String;)Ljava/lang/String;"@)) == Some(Native::JavaIo(JavaIo::Canonicalize))
            &&& bound.get(("java/io/WinNTFileSystem"@, "getFinalPath0"@, "(Ljava/lang/String;)Ljava/lang/String;"@)) == Some(Native::JavaIo(JavaIo::GetFinalPath))
            &&& bound.get(("java/io/WinNTFileSystem"@, "getBooleanAttributes0"@, "(Ljava/io/File;)I"@)) == Some(Native::JavaIo(JavaIo::GetBooleanAttributes))
            &&& forall|other: Key| other.0 != "java/io/WinNTFileSystem"@ && other.0 != "java/io/FileDescriptor"@ ==> #[trigger] bound.get(other) == m.get(other)
        }),
{
    reveal_strlit("canonicalize0");
    reveal_strlit("getAppend");
    reveal_strlit("getBooleanAttributes0");
    reveal_strlit("getFinalPath0");
    reveal_strlit("getHandle");
    reveal_strlit("initIDs");
    reveal_strlit("java/io/FileDescriptor");
    reveal_strlit("java/io/WinNTFileSystem");
    assert("canonicalize0"@.len() == 13 && "canonicalize0"@[0] == 'c');
    assert("getAppend"@.len() == 9 && "getAppend"@[3] == 'A');
    assert("getBooleanAttributes0"@.len() == 21);
    assert("getFinalPath0"@.len() == 13 && "getFinalPath0"@[0] == 'g');
    assert("getHandle"@.len() == 9 && "getHandle"@[3] == 'H');
    assert("initIDs"@.len() == 7);
    assert("java/io/FileDescriptor"@.len() == 22);
    assert("java/io/WinNTFileSystem"@.len() == 23);
}

/// The native methods of `java.lang.invoke` are bound to their names, and no other class is affected.
pub proof fn law_bindings_of_java_lang_invoke(m: Map<Key, Native>)
    ensures
        ({
            let bound = java_lang_invoke::registered(m);
            &&& bound.get(("java/lang/invoke/MethodHandleNatives"@, "init"@, "(Ljava/lang/invoke/MemberName;Ljava/lang/Object;)V"@)) == Some(Native::JavaLangInvoke(JavaLangInvoke::Init))
            &&& bound.get(("java/lang/invoke/MethodHandleNatives"@, "resolve"@, "(Ljava/lang/invoke/MemberName;Ljava/lang/Class;IZ)Ljava/lang/invoke/MemberName;"@)) == Some(Native::JavaLangInvoke(JavaLangInvoke::Resolve))
            &&& bound.get(("java/lang/invoke/MethodHandleNatives"@, "objectFieldOffset"@, "(Ljava/lang/invoke/MemberName;)J"@)) == Some(Native::JavaLangInvoke(JavaLangInvoke::ObjectFieldOffset))
            &&& bound.get(("java/lang/invoke/MethodHandleNatives"@, "staticFieldOffset"@, "(Ljava/lang/invoke/MemberName;)J"@)) == Some(Native::JavaLangInvoke(JavaLangInvoke::StaticFieldOffset))
            &&& bound.get(("java/lang/invoke/MethodHandleNatives"@, "staticFieldBase"@, "(Ljava/lang/invoke/MemberName;)Ljava/lang/Object;"@)) == Some(Native::JavaLangInvoke(JavaLangInvoke::StaticFieldBase))
            &&& forall|other: Key| other.0 != "java/lang/invoke/MethodHandleNatives"@ ==> #[trigger] bound.get(other) == m.get(other)
        }),
{
    reveal_strlit("init");
    reveal_strlit("objectFieldOffset");
    reveal_strlit("resolve");
    reveal_strlit("staticFieldBase");
    reveal_strlit("staticFieldOffset");
    assert("init"@.len() == 4);
    assert("objectFieldOffset"@.len() == 17 && "objectFieldOffset"@[0] == 'o');
    assert("resolve"@.len() == 7);
    assert("staticFieldBase"@.len() == 15);
    assert("staticFieldOffset"@.len() == 17 && "staticFieldOffset"@[0] == 's');
}

/// The native methods of `jdk.internal.misc` are bound to their names, and no other class is affected.
#[verifier::rlimit(60)]
pub proof fn law_bindings_of_jdk_internal(m: Map<Key, Native>)
    ensures
        ({
            let bound = jdk_internal::registered(m);
            &&& bound.get(("jdk/internal/misc/VM"@, "initialize"@, "()V"@)) == Some(Native::JdkInternal(JdkInternal::Nothing))
            &&& bound.get(("jdk/internal/misc/CDS"@, "initializeFromArchive"@, "(Ljava/lang/Class;)V"@)) == Some(Native::JdkInternal(JdkInternal::Nothing))
            &&& bound.get(("jdk/internal/misc/CDS"@, "getCDSConfigStatus"@, "()I"@)) == Some(Native::JdkInternal(JdkInternal::ZeroInt))
            &&& bound.get(("jdk/internal/misc/CDS"@, "getRandomSeedForDumping"@, "()J"@)) == Some(Native::JdkInternal(JdkInternal::ZeroLong))
            &&& bound.get(("jdk/internal/misc/Unsafe"@, "arrayBaseOffset0"@, "(Ljava/lang/Class;)I"@)) == Some(Native::JdkInternal(JdkInternal::ArrayBaseOffset))
            &&& bound.get(("jdk/internal/misc/Unsafe"@, "arrayIndexScale0"@, "(Ljava/lang/Class;)I"@)) == Some(Native::JdkInternal(JdkInternal::ArrayIndexScale))
            &&& bound.get(("jdk/internal/misc/Unsafe"@, "putByte"@, "(Ljava/lang/Object;JB)V"@)) == Some(Native::JdkInternal(JdkInternal::PutByte))
            &&& bound.get(("jdk/internal/misc/Unsafe"@, "getByte"@, "(Ljava/lang/Object;)B"@)) == Some(Native::JdkInternal(JdkInternal::GetByte))
            &&& bound.get(("jdk/internal/misc/Unsafe"@, "getByte"@, "(Ljava/lang/Object;J)B"@)) == Some(Native::JdkInternal(JdkInternal::GetByte))
            &&& bound.get(("jdk/internal/misc/Unsafe"@, "objectFieldOffset1"@, "(Ljava/lang/Class;Ljava/lang/String;)J"@)) == Some(Native::JdkInternal(JdkInternal::ObjectFieldOffset))
            &&& bound.get(("jdk/internal/misc/Unsafe"@, "compareAndSetReference"@, "(Ljava/lang/Object;JLjava/lang/Object;Ljava/lang/Object;)Z"@)) == Some(Native::JdkInternal(JdkInternal::CompareAndSetReference))
            &&& bound.get(("jdk/internal/misc/Unsafe"@, "compareAndSetInt"@, "(Ljava/lang/Object;JII)Z"@)) == Some(Native::JdkInternal(JdkInternal::CompareAndSetInt))
            &&& bound.get(("jdk/internal/misc/Unsafe"@, "getReferenceVolatile"@, "(Ljava/lang/Object;J)Ljava/lang/Object;"@)) == Some(Native::JdkInternal(JdkInternal::GetReferenceVolatile))
            &&& bound.get(("jdk/internal/misc/Unsafe"@, "putReferenceVolatile"@, "(Ljava/lang/Object;JLjava/lang/Object;)V"@)) == Some(Native::JdkInternal(JdkInternal::PutReferenceVolatile))
            &&& bound.get(("jdk/internal/misc/Unsafe"@, "getIntVolatile"@, "(Ljava/lang/Object;J)I"@)) == Some(Native::JdkInternal(JdkInternal::GetIntVolatile))
            &&& bound.get(("jdk/internal/misc/Unsafe"@, "putIntVolatile"@, "(Ljava/lang/Object;JI)V"@)) == Some(Native::JdkInternal(JdkInternal::PutIntVolatile))
            &&& bound.get(("jdk/internal/misc/Unsafe"@, "getLongVolatile"@, "(Ljava/lang/Object;J)J"@)) == Some(Native::JdkInternal(JdkInternal::GetLongVolatile))
            &&& bound.get(("jdk/internal/misc/Unsafe"@, "compareAndSetLong"@, "(Ljava/lang/Object;JJJ)Z"@)) == Some(Native::JdkInternal(JdkInternal::CompareAndSetLong))
            &&& bound.get(("jdk/internal/misc/Unsafe"@, "compareAndExchangeInt"@, "(Ljava/lang/Object;JII)I"@)) == Some(Native::JdkInternal(JdkInternal::CompareAndExchangeInt))
            &&& forall|other: Key| other.0 != "jdk/internal/misc/VM"@ && other.0 != "jdk/internal/misc/CDS"@ && other.0 != "jdk/internal/misc/Unsafe"@ ==> #[trigger] bound.get(other) == m.get(other)
        }),
{
    reveal_strlit("(Ljava/lang/Object;)B");
    reveal_strlit("(Ljava/lang/Object;J)B");
    reveal_strlit("arrayBaseOffset0");
    reveal_strlit("arrayIndexScale0");
    reveal_strlit("compareAndExchangeInt");
    reveal_strlit("compareAndSetInt");
    reveal_strlit("compareAndSetLong");
    reveal_strlit("compareAndSetReference");
    reveal_strlit("getByte");
    reveal_strlit("getCDSConfigStatus");
    reveal_strlit("getIntVolatile");
    reveal_strlit("getLongVolatile");
    reveal_strlit("getRandomSeedForDumping");
    reveal_strlit("getReferenceVolatile");
    reveal_strlit("initialize");
    reveal_strlit("initializeFromArchive");
    reveal_strlit("objectFieldOffset1");
    reveal_strlit("putByte");
    reveal_strlit("putIntVolatile");
    reveal_strlit("putReferenceVolatile");
    assert("(Ljava/lang/Object;)B"@.len() == 21);
    assert("(Ljava/lang/Object;J)B"@.len() == 22);
    assert("arrayBaseOffset0"@.len() == 16 && "arrayBaseOffset0"@[0] == 'a' && "arrayBaseOffset0"@[5] == 'B');
    assert("arrayIndexScale0"@.len() == 16 && "arrayIndexScale0"@[0] == 'a' && "arrayIndexScale0"@[5] == 'I');
    assert("compareAndExchangeInt"@.len() == 21 && "compareAndExchangeInt"@[0] == 'c');
    assert("compareAndSetInt"@.len() == 16 && "compareAndSetInt"@[0] == 'c');
    assert("compareAndSetLong"@.len() == 17);
    assert("compareAndSetReference"@.len() == 22);
    assert("getByte"@.len() == 7 && "getByte"@[0] == 'g');
    assert("getCDSConfigStatus"@.len() == 18 && "getCDSConfigStatus"@[0] == 'g');
    assert("getIntVolatile"@.len() == 14 && "getIntVolatile"@[0] == 'g');
    assert("getLongVolatile"@.len() == 15);
    assert("getRandomSeedForDumping"@.len() == 23);
    assert("getReferenceVolatile"@.len() == 20 && "getReferenceVolatile"@[0] == 'g');
    assert("initialize"@.len() == 10);
    assert("initializeFromArchive"@.len() == 21 && "initializeFromArchive"@[0] == 'i');
    assert("objectFieldOffset1"@.len() == 18 && "objectFieldOffset1"@[0] == 'o');
    assert("putByte"@.len() == 7 && "putByte"@[0] == 'p');
    assert("putIntVolatile"@.len() == 14 && "putIntVolatile"@[0] == 'p');
    assert("putReferenceVolatile"@.len() == 20 && "putReferenceVolatile"@[0] == 'p');
}

/// The native methods of `jdk.internal.reflect` are bound to their names, and no other class is affected.
pub proof fn law_bindings_of_jdk_internal_reflect(m: Map<Key, Native>)
    ensures
        ({
            let bound = jdk_internal_reflect::registered(m);
            &&& bound.get(("jdk/internal/reflect/Reflection"@, "getCallerClass"@, "()Ljava/lang/Class;"@)) == Some(Native::JdkInternalReflect(JdkInternalReflect::GetCallerClass))
            &&& bound.get(("jdk/internal/reflect/Reflection"@, "getClassAccessFlags"@, "(Ljava/lang/Class;)I"@)) == Some(Native::JdkInternalReflect(JdkInternalReflect::GetClassAccessFlags))
            &&& bound.get(("jdk/internal/reflect/DirectMethodHandleAccessor$NativeAccessor"@, "invoke0"@, "(Ljava/lang/reflect/Method;Ljava/lang/Object;[Ljava/lang/Object;)Ljava/lang/Object;"@)) == Some(Native::JdkInternalReflect(JdkInternalReflect::InvokeMethod))
            &&& bound.get(("jdk/internal/reflect/DirectConstructorHandleAccessor$NativeAccessor"@, "newInstance0"@, "(Ljava/lang/reflect/Constructor;[Ljava/lang/Object;)Ljava/lang/Object;"@)) == Some(Native::JdkInternalReflect(JdkInternalReflect::NewInstance))
            &&& forall|other: Key| other.0 != "jdk/internal/reflect/Reflection"@ && other.0 != "jdk/internal/reflect/DirectMethodHandleAccessor$NativeAccessor"@ && other.0 != "jdk/internal/reflect/DirectConstructorHandleAccessor$NativeAccessor"@ ==> #[trigger] bound.get(other) == m.get(other)
        }),
{
    reveal_strlit("getCallerClass");
    reveal_strlit("getClassAccessFlags");
    reveal_strlit("invoke0");
    reveal_strlit("newInstance0");
    assert("getCallerClass"@.len() == 14);
    assert("getClassAccessFlags"@.len() == 19);
    assert("invoke0"@.len() == 7);
    assert("newInstance0"@.len() == 12);
}

/// The native methods of `java.lang` are bound to their names, and no other class is affected.
#[verifier::rlimit(60)]
pub proof fn law_bindings_of_java_lang(m: Map<Key, Native>)
    ensures
        ({
            let bound = java_lang::registered(m);
            &&& bound.get(("java/lang/Throwable"@, "fillInStackTrace"@, "(I)Ljava/lang/Throwable;"@)) == Some(Native::JavaLang(JavaLang::FillInStackTrace))
            &&& bound.get(("java/lang/Object"@, "hashCode"@, "()I"@)) == Some(Native::JavaLang(JavaLang::HashCode))
            &&& bound.get(("java/lang/System"@, "identityHashCode"@, "(Ljava/lang/Object;)I"@)) == Some(Native::JavaLang(JavaLang::IdentityHashCode))
            &&& bound.get(("java/lang/Object"@, "notify"@, "()V"@)) == Some(Native::JavaLang(JavaLang::Notify))
            &&& bound.get(("java/lang/Object"@, "notifyAll"@, "()V"@)) == Some(Native::JavaLang(JavaLang::NotifyAll))
            &&& bound.get(("java/lang/Object"@, "wait0"@, "(J)V"@)) == Some(Native::JavaLang(JavaLang::WaitMillis))
            &&& bound.get(("java/lang/Object"@, "wait"@, "()V"@)) == Some(Native::JavaLang(JavaLang::WaitForever))
            &&& bound.get(("java/lang/Object"@, "wait"@, "(J)V"@)) == Some(Native::JavaLang(JavaLang::WaitMillis))
            &&& bound.get(("java/lang/Object"@, "wait"@, "(JI)V"@)) == Some(Native::JavaLang(JavaLang::WaitMillis))
            &&& bound.get(("java/lang/Object"@, "getClass"@, "()Ljava/lang/Class;"@)) == Some(Native::JavaLang(JavaLang::GetClass))
            &&& bound.get(("java/lang/System"@, "arraycopy"@, "(Ljava/lang/Object;ILjava/lang/Object;II)V"@)) == Some(Native::JavaLang(JavaLang::ArrayCopy))
            &&& bound.get(("java/lang/System"@, "currentTimeMillis"@, "()J"@)) == Some(Native::JavaLang(JavaLang::CurrentTimeMillis))
            &&& bound.get(("java/lang/System"@, "nanoTime"@, "()J"@)) == Some(Native::JavaLang(JavaLang::NanoTime))
            &&& bound.get(("java/lang/Float"@, "floatToRawIntBits"@, "(F)I"@)) == Some(Native::JavaLang(JavaLang::FloatToRawIntBits))
            &&& bound.get(("java/lang/Float"@, "intBitsToFloat"@, "(I)F"@)) == Some(Native::JavaLang(JavaLang::IntBitsToFloat))
            &&& bound.get(("java/lang/Double"@, "doubleToRawLongBits"@, "(D)J"@)) == Some(Native::JavaLang(JavaLang::DoubleToRawLongBits))
            &&& bound.get(("java/lang/Double"@, "longBitsToDouble"@, "(J)D"@)) == Some(Native::JavaLang(JavaLang::LongBitsToDouble))
            &&& bound.get(("java/lang/Class"@, "getPrimitiveClass"@, "(Ljava/lang/String;)Ljava/lang/Class;"@)) == Some(Native::JavaLang(JavaLang::GetPrimitiveClass))
            &&& bound.get(("java/lang/Class"@, "forName0"@, "(Ljava/lang/String;ZLjava/lang/ClassLoader;Ljava/lang/Class;)Ljava/lang/Class;"@)) == Some(Native::JavaLang(JavaLang::ForName))
            &&& bound.get(("java/lang/Class"@, "getDeclaredFields0"@, "(Z)[Ljava/lang/reflect/Field;"@)) == Some(Native::JavaLang(JavaLang::GetDeclaredFields))
            &&& bound.get(("java/lang/Class"@, "getDeclaredMethods0"@, "(Z)[Ljava/lang/reflect/Method;"@)) == Some(Native::JavaLang(JavaLang::GetDeclaredMethods))
            &&& bound.get(("java/lang/Class"@, "getDeclaredConstructors0"@, "(Z)[Ljava/lang/reflect/Constructor;"@)) == Some(Native::JavaLang(JavaLang::GetDeclaredConstructors))
            &&& bound.get(("java/lang/Class"@, "desiredAssertionStatus0"@, "(Ljava/lang/Class;)Z"@)) == Some(Native::JavaLang(JavaLang::DesiredAssertionStatus))
            &&& bound.get(("java/lang/Class"@, "initClassName"@, "()Ljava/lang/String;"@)) == Some(Native::JavaLang(JavaLang::InitClassName))
            &&& bound.get(("java/lang/Class"@, "isInstance"@, "(Ljava/lang/Object;)Z"@)) == Some(Native::JavaLang(JavaLang::IsInstance))
            &&& bound.get(("java/lang/Class"@, "isAssignableFrom"@, "(Ljava/lang/Class;)Z"@)) == Some(Native::JavaLang(JavaLang::IsAssignableFrom))
            &&& bound.get(("java/lang/Class"@, "getSuperclass"@, "()Ljava/lang/Class;"@)) == Some(Native::JavaLang(JavaLang::GetSuperclass))
            &&& bound.get(("java/lang/Runtime"@, "maxMemory"@, "()J"@)) == Some(Native::JavaLang(JavaLang::MaxMemory))
            &&& bound.get(("java/lang/Runtime"@, "availableProcessors"@, "()I"@)) == Some(Native::JavaLang(JavaLang::AvailableProcessors))
            &&& bound.get(("java/lang/String"@, "intern"@, "()Ljava/lang/String;"@)) == Some(Native::JavaLang(JavaLang::InternString))
            &&& bound.get(("java/lang/StackTraceElement"@, "initStackTraceElements"@, "([Ljava/lang/StackTraceElement;Ljava/lang/Object;I)V"@)) == Some(Native::JavaLang(JavaLang::InitStackTraceElements))
            &&& bound.get(("java/lang/ref/Reference"@, "refersTo0"@, "(Ljava/lang/Object;)Z"@)) == Some(Native::JavaLang(JavaLang::RefersTo))
            &&& bound.get(("java/lang/ClassLoader"@, "findLoadedClass0"@, "(Ljava/lang/String;)Ljava/lang/Class;"@)) == Some(Native::JavaLang(JavaLang::FindLoadedClass))
            &&& bound.get(("java/lang/System"@, "mapLibraryName"@, "(Ljava/lang/String;)Ljava/lang/String;"@)) == Some(Native::JavaLang(JavaLang::MapLibraryName))
            &&& bound.get(("java/lang/Thread"@, "currentThread"@, "()Ljava/lang/Thread;"@)) == Some(Native::JavaLang(JavaLang::CurrentThread))
            &&& bound.get(("java/lang/Thread"@, "holdsLock"@, "(Ljava/lang/Object;)Z"@)) == Some(Native::JavaLang(JavaLang::HoldsLock))
            &&& bound.get(("java/lang/Thread"@, "yield0"@, "()V"@)) == Some(Native::JavaLang(JavaLang::Yield))
            &&& bound.get(("java/lang/Thread"@, "sleepNanos0"@, "(J)V"@)) == Some(Native::JavaLang(JavaLang::SleepNanos))
            &&& bound.get(("java/lang/Thread"@, "start0"@, "()V"@)) == Some(Native::JavaLang(JavaLang::StartThread))
            &&& bound.get(("java/lang/Thread"@, "interrupt0"@, "()V"@)) == Some(Native::JavaLang(JavaLang::Interrupt))
            &&& bound.get(("java/lang/Thread"@, "clearInterruptEvent"@, "()V"@)) == Some(Native::JavaLang(JavaLang::ClearInterruptEvent))
            &&& bound.get(("java/lang/Thread"@, "getNextThreadIdOffset"@, "()J"@)) == Some(Native::JavaLang(JavaLang::NextThreadIdOffset))
            &&& forall|other: Key| other.0 != "java/lang/Throwable"@ && other.0 != "java/lang/Object"@ && other.0 != "java/lang/System"@ && other.0 != "java/lang/Float"@ && other.0 != "java/lang/Double"@ && other.0 != "java/lang/Class"@ && other.0 != "java/lang/Runtime"@ && other.0 != "java/lang/String"@ && other.0 != "java/lang/StackTraceElement"@ && other.0 != "java/lang/ref/Reference"@ && other.0 != "java/lang/ClassLoader"@ && other.0 != "java/lang/Thread"@ ==> #[trigger] bound.get(other) == m.get(other)
        }),
{
    reveal_strlit("()V");
    reveal_strlit("(J)V");
    reveal_strlit("(JI)V");
    reveal_strlit("arraycopy");
    reveal_strlit("availableProcessors");
    reveal_strlit("clearInterruptEvent");
    reveal_strlit("currentThread");
    reveal_strlit("currentTimeMillis");
    reveal_strlit("desiredAssertionStatus0");
    reveal_strlit("doubleToRawLongBits");
    reveal_strlit("fillInStackTrace");
    reveal_strlit("findLoadedClass0");
    reveal_strlit("floatToRawIntBits");
    reveal_strlit("forName0");
    reveal_strlit("getClass");
    reveal_strlit("getDeclaredConstructors0");
    reveal_strlit("getDeclaredFields0");
    reveal_strlit("getDeclaredMethods0");
    reveal_strlit("getNextThreadIdOffset");
    reveal_strlit("getPrimitiveClass");
    reveal_strlit("getSuperclass");
    reveal_strlit("hashCode");
    reveal_strlit("holdsLock");
    reveal_strlit("identityHashCode");
    reveal_strlit("initClassName");
    reveal_strlit("initStackTraceElements");
    reveal_strlit("intBitsToFloat");
    reveal_strlit("intern");
    reveal_strlit("interrupt0");
    reveal_strlit("isAssignableFrom");
    reveal_strlit("isInstance");
    reveal_strlit("longBitsToDouble");
    reveal_strlit("mapLibraryName");
    reveal_strlit("maxMemory");
    reveal_strlit("nanoTime");
    reveal_strlit("notify");
    reveal_strlit("notifyAll");
    reveal_strlit("refersTo0");
    reveal_strlit("sleepNanos0");
    reveal_strlit("start0");
    reveal_strlit("wait");
    reveal_strlit("wait0");
    reveal_strlit("yield0");
    assert("()V"@.len() == 3);
    assert("(J)V"@.len() == 4);
    assert("(JI)V"@.len() == 5);
    assert("arraycopy"@.len() == 9 && "arraycopy"@[0] == 'a');
    assert("availableProcessors"@.len() == 19 && "availableProcessors"@[0] == 'a');
    assert("clearInterruptEvent"@.len() == 19 && "clearInterruptEvent"@[0] == 'c');
    assert("currentThread"@.len() == 13 && "currentThread"@[0] == 'c');
    assert("currentTimeMillis"@.len() == 17 && "currentTimeMillis"@[0] == 'c');
    assert("desiredAssertionStatus0"@.len() == 23);
    assert("doubleToRawLongBits"@.len() == 19 && "doubleToRawLongBits"@[0] == 'd');
    assert("fillInStackTrace"@.len() == 16 && "fillInStackTrace"@[0] == 'f' && "fillInStackTrace"@[2] == 'l');
    assert("findLoadedClass0"@.len() == 16 && "findLoadedClass0"@[0] == 'f' && "findLoadedClass0"@[2] == 'n');
    assert("floatToRawIntBits"@.len() == 17 && "floatToRawIntBits"@[0] == 'f');
    assert("forName0"@.len() == 8 && "forName0"@[0] == 'f');
    assert("getClass"@.len() == 8 && "getClass"@[0] == 'g');
    assert("getDeclaredConstructors0"@.len() == 24);
    assert("getDeclaredFields0"@.len() == 18);
    assert("getDeclaredMethods0"@.len() == 19 && "getDeclaredMethods0"@[0] == 'g');
    assert("getNextThreadIdOffset"@.len() == 21);
    assert("getPrimitiveClass"@.len() == 17 && "getPrimitiveClass"@[0] == 'g');
    assert("getSuperclass"@.len() == 13 && "getSuperclass"@[0] == 'g');
    assert("hashCode"@.len() == 8 && "hashCode"@[0] == 'h');
    assert("holdsLock"@.len() == 9 && "holdsLock"@[0] == 'h');
    assert("identityHashCode"@.len() == 16 && "identityHashCode"@[0] == 'i' && "identityHashCode"@[1] == 'd');
    assert("initClassName"@.len() == 13 && "initClassName"@[0] == 'i');
    assert("initStackTraceElements"@.len() == 22);
    assert("intBitsToFloat"@.len() == 14 && "intBitsToFloat"@[0] == 'i');
    assert("intern"@.len() == 6 && "intern"@[0] == 'i');
    assert("interrupt0"@.len() == 10 && "interrupt0"@[1] == 'n');
    assert("isAssignableFrom"@.len() == 16 && "isAssignableFrom"@[0] == 'i' && "isAssignableFrom"@[1] == 's');
    assert("isInstance"@.len() == 10 && "isInstance"@[1] == 's');
    assert("longBitsToDouble"@.len() == 16 && "longBitsToDouble"@[0] == 'l');
    assert("mapLibraryName"@.len() == 14 && "mapLibraryName"@[0] == 'm');
    assert("maxMemory"@.len() == 9 && "maxMemory"@[0] == 'm');
    assert("nanoTime"@.len() == 8 && "nanoTime"@[0] == 'n');
    assert("notify"@.len() == 6 && "notify"@[0] == 'n');
    assert("notifyAll"@.len() == 9 && "notifyAll"@[0] == 'n');
    assert("refersTo0"@.len() == 9 && "refersTo0"@[0] == 'r');
    assert("sleepNanos0"@.len() == 11);
    assert("start0"@.len() == 6 && "start0"@[0] == 's');
    assert("wait"@.len() == 4);
    assert("wait0"@.len() == 5);
    assert("yield0"@.len() == 6 && "yield0"@[0] == 'y');
}

/// A new machine has all of them bound.
#[verifier::rlimit(60)]
pub proof fn law_built_in_bindings()
    ensures
        ({
            let bound = built_in();
            &&& bound.get(("sun/nio/fs/WindowsNativeDispatcher"@, "initIDs"@, "()V"@)) == Some(Native::SunNioFs(SunNioFs::InitIds))
            &&& bound.get(("jdk/internal/loader/NativeLibraries"@, "load"@, "(Ljdk/internal/loader/NativeLibraries$NativeLibraryImpl;Ljava/lang/String;ZZ)Z"@)) == Some(Native::JdkInternalLoader(JdkInternalLoader::Load))
            &&& bound.get(("jdk/internal/loader/NativeLibraries"@, "unload"@, "(Ljava/lang/String;ZJ)V"@)) == Some(Native::JdkInternalLoader(JdkInternalLoader::Unload))
            &&& bound.get(("jdk/internal/loader/NativeLibraries"@, "findBuiltinLib"@, "(Ljava/lang/String;)Ljava/lang/String;"@)) == Some(Native::JdkInternalLoader(JdkInternalLoader::FindBuiltinLib))
            &&& bound.get(("jdk/internal/loader/NativeLibrary"@, "findEntry0"@, "(JLjava/lang/String;)J"@)) == Some(Native::JdkInternalLoader(JdkInternalLoader::FindEntry))
            &&& bound.get(("jdk/internal/loader/BootLoader"@, "setBootLoaderUnnamedModule0"@, "(Ljava/lang/Module;)V"@)) == Some(Native::JdkInternalLoader(JdkInternalLoader::SetBootLoaderUnnamedModule))
            &&& bound.get(("java/io/WinNTFileSystem"@, "initIDs"@, "()V"@)) == Some(Native::JavaIo(JavaIo::InitIds))
            &&& bound.get(("java/io/FileDescriptor"@, "initIDs"@, "()V"@)) == Some(Native::JavaIo(JavaIo::InitIds))
            &&& bound.get(("java/io/FileDescriptor"@, "getHandle"@, "(I)J"@)) == Some(Native::JavaIo(JavaIo::GetHandle))
            &&& bound.get(("java/io/FileDescriptor"@, "getAppend"@, "(I)Z"@)) == Some(Native::JavaIo(JavaIo::GetAppend))
            &&& bound.get(("java/io/WinNTFileSystem"@, "canonicalize0"@, "(Ljava/lang/String;)Ljava/lang/String;"@)) == Some(Native::JavaIo(JavaIo::Canonicalize))
            &&& bound.get(("java/io/WinNTFileSystem"@, "getFinalPath0"@, "(Ljava/lang/String;)Ljava/lang/String;"@)) == Some(Native::JavaIo(JavaIo::GetFinalPath))
            &&& bound.get(("java/io/WinNTFileSystem"@, "getBooleanAttributes0"@, "(Ljava/io/File;)I"@)) == Some(Native::JavaIo(JavaIo::GetBooleanAttributes))
            &&& bound.get(("java/lang/invoke/MethodHandleNatives"@, "init"@, "(Ljava/lang/invoke/MemberName;Ljava/lang/Object;)V"@)) == Some(Native::JavaLangInvoke(JavaLangInvoke::Init))
            &&& bound.get(("java/lang/invoke/MethodHandleNatives"@, "resolve"@, "(Ljava/lang/invoke/MemberName;Ljava/lang/Class;IZ)Ljava/lang/invoke/MemberName;"@)) == Some(Native::JavaLangInvoke(JavaLangInvoke::Resolve))
            &&& bound.get(("java/lang/invoke/MethodHandleNatives"@, "objectFieldOffset"@, "(Ljava/lang/invoke/MemberName;)J"@)) == Some(Native::JavaLangInvoke(JavaLangInvoke::ObjectFieldOffset))
            &&& bound.get(("java/lang/invoke/MethodHandleNatives"@, "staticFieldOffset"@, "(Ljava/lang/invoke/MemberName;)J"@)) == Some(Native::JavaLangInvoke(JavaLangInvoke::StaticFieldOffset))
            &&& bound.get(("java/lang/invoke/MethodHandleNatives"@, "staticFieldBase"@, "(Ljava/lang/invoke/MemberName;)Ljava/lang/Object;"@)) == Some(Native::JavaLangInvoke(JavaLangInvoke::StaticFieldBase))
            &&& bound.get(("jdk/internal/misc/VM"@, "initialize"@, "()V"@)) == Some(Native::JdkInternal(JdkInternal::Nothing))
            &&& bound.get(("jdk/internal/misc/CDS"@, "initializeFromArchive"@, "(Ljava/lang/Class;)V"@)) == Some(Native::JdkInternal(JdkInternal::Nothing))
            &&& bound.get(("jdk/internal/misc/CDS"@, "getCDSConfigStatus"@, "()I"@)) == Some(Native::JdkInternal(JdkInternal::ZeroInt))
            &&& bound.get(("jdk/internal/misc/CDS"@, "getRandomSeedForDumping"@, "()J"@)) == Some(Native::JdkInternal(JdkInternal::ZeroLong))
            &&& bound.get(("jdk/internal/misc/Unsafe"@, "arrayBaseOffset0"@, "(Ljava/lang/Class;)I"@)) == Some(Native::JdkInternal(JdkInternal::ArrayBaseOffset))
            &&& bound.get(("jdk/internal/misc/Unsafe"@, "arrayIndexScale0"@, "(Ljava/lang/Class;)I"@)) == Some(Native::JdkInternal(JdkInternal::ArrayIndexScale))
            &&& bound.get(("jdk/internal/misc/Unsafe"@, "putByte"@, "(Ljava/lang/Object;JB)V"@)) == Some(Native::JdkInternal(JdkInternal::PutByte))
            &&& bound.get(("jdk/internal/misc/Unsafe"@, "getByte"@, "(Ljava/lang/Object;)B"@)) == Some(Native::JdkInternal(JdkInternal::GetByte))
            &&& bound.get(("jdk/internal/misc/Unsafe"@, "getByte"@, "(Ljava/lang/Object;J)B"@)) == Some(Native::JdkInternal(JdkInternal::GetByte))
            &&& bound.get(("jdk/internal/misc/Unsafe"@, "objectFieldOffset1"@, "(Ljava/lang/Class;Ljava/lang/String;)J"@)) == Some(Native::JdkInternal(JdkInternal::ObjectFieldOffset))
            &&& bound.get(("jdk/internal/misc/Unsafe"@, "compareAndSetReference"@, "(Ljava/lang/Object;JLjava/lang/Object;Ljava/lang/Object;)Z"@)) == Some(Native::JdkInternal(JdkInternal::CompareAndSetReference))
            &&& bound.get(("jdk/internal/misc/Unsafe"@, "compareAndSetInt"@, "(Ljava/lang/Object;JII)Z"@)) == Some(Native::JdkInternal(JdkInternal::CompareAndSetInt))
            &&& bound.get(("jdk/internal/misc/Unsafe"@, "getReferenceVolatile"@, "(Ljava/lang/Object;J)Ljava/lang/Object;"@)) == Some(Native::JdkInternal(JdkInternal::GetReferenceVolatile))
            &&& bound.get(("jdk/internal/misc/Unsafe"@, "putReferenceVolatile"@, "(Ljava/lang/Object;JLjava/lang/Object;)V"@)) == Some(Native::JdkInternal(JdkInternal::PutReferenceVolatile))
            &&& bound.get(("jdk/internal/misc/Unsafe"@, "getIntVolatile"@, "(Ljava/lang/Object;J)I"@)) == Some(Native::JdkInternal(JdkInternal::GetIntVolatile))
            &&& bound.get(("jdk/internal/misc/Unsafe"@, "putIntVolatile"@, "(Ljava/lang/Object;JI)V"@)) == Some(Native::JdkInternal(JdkInternal::PutIntVolatile))
            &&& bound.get(("jdk/internal/misc/Unsafe"@, "getLongVolatile"@, "(Ljava/lang/Object;J)J"@)) == Some(Native::JdkInternal(JdkInternal::GetLongVolatile))
            &&& bound.get(("jdk/internal/misc/Unsafe"@, "compareAndSetLong"@, "(Ljava/lang/Object;JJJ)Z"@)) == Some(Native::JdkInternal(JdkInternal::CompareAndSetLong))
            &&& bound.get(("jdk/internal/misc/Unsafe"@, "compareAndExchangeInt"@, "(Ljava/lang/Object;JII)I"@)) == Some(Native::JdkInternal(JdkInternal::CompareAndExchangeInt))
            &&& bound.get(("jdk/internal/reflect/Reflection"@, "getCallerClass"@, "()Ljava/lang/Class;"@)) == Some(Native::JdkInternalReflect(JdkInternalReflect::GetCallerClass))
            &&& bound.get(("jdk/internal/reflect/Reflection"@, "getClassAccessFlags"@, "(Ljava/lang/Class;)I"@)) == Some(Native::JdkInternalReflect(JdkInternalReflect::GetClassAccessFlags))
            &&& bound.get(("jdk/internal/reflect/DirectMethodHandleAccessor$NativeAccessor"@, "invoke0"@, "(Ljava/lang/reflect/Method;Ljava/lang/Object;[Ljava/lang/Object;)Ljava/lang/Object;"@)) == Some(Native::JdkInternalReflect(JdkInternalReflect::InvokeMethod))
            &&& bound.get(("jdk/internal/reflect/DirectConstructorHandleAccessor$NativeAccessor"@, "newInstance0"@, "(Ljava/lang/reflect/Constructor;[Ljava/lang/Object;)Ljava/lang/Object;"@)) == Some(Native::JdkInternalReflect(JdkInternalReflect::NewInstance))
            &&& bound.get(("java/lang/Throwable"@, "fillInStackTrace"@, "(I)Ljava/lang/Throwable;"@)) == Some(Native::JavaLang(JavaLang::FillInStackTrace))
            &&& bound.get(("java/lang/Object"@, "hashCode"@, "()I"@)) == Some(Native::JavaLang(JavaLang::HashCode))
            &&& bound.get(("java/lang/System"@, "identityHashCode"@, "(Ljava/lang/Object;)I"@)) == Some(Native::JavaLang(JavaLang::IdentityHashCode))
            &&& bound.get(("java/lang/Object"@, "notify"@, "()V"@)) == Some(Native::JavaLang(JavaLang::Notify))
            &&& bound.get(("java/lang/Object"@, "notifyAll"@, "()V"@)) == Some(Native::JavaLang(JavaLang::NotifyAll))
            &&& bound.get(("java/lang/Object"@, "wait0"@, "(J)V"@)) == Some(Native::JavaLang(JavaLang::WaitMillis))
            &&& bound.get(("java/lang/Object"@, "wait"@, "()V"@)) == Some(Native::JavaLang(JavaLang::WaitForever))
            &&& bound.get(("java/lang/Object"@, "wait"@, "(J)V"@)) == Some(Native::JavaLang(JavaLang::WaitMillis))
            &&& bound.get(("java/lang/Object"@, "wait"@, "(JI)V"@)) == Some(Native::JavaLang(JavaLang::WaitMillis))
            &&& bound.get(("java/lang/Object"@, "getClass"@, "()Ljava/lang/Class;"@)) == Some(Native::JavaLang(JavaLang::GetClass))
            &&& bound.get(("java/lang/System"@, "arraycopy"@, "(Ljava/lang/Object;ILjava/lang/Object;II)V"@)) == Some(Native::JavaLang(JavaLang::ArrayCopy))
            &&& bound.get(("java/lang/System"@, "currentTimeMillis"@, "()J"@)) == Some(Native::JavaLang(JavaLang::CurrentTimeMillis))
            &&& bound.get(("java/lang/System"@, "nanoTime"@, "()J"@)) == Some(Native::JavaLang(JavaLang::NanoTime))
            &&& bound.get(("java/lang/Float"@, "floatToRawIntBits"@, "(F)I"@)) == Some(Native::JavaLang(JavaLang::FloatToRawIntBits))
            &&& bound.get(("java/lang/Float"@, "intBitsToFloat"@, "(I)F"@)) == Some(Native::JavaLang(JavaLang::IntBitsToFloat))
            &&& bound.get(("java/lang/Double"@, "doubleToRawLongBits"@, "(D)J"@)) == Some(Native::JavaLang(JavaLang::DoubleToRawLongBits))
            &&& bound.get(("java/lang/Double"@, "longBitsToDouble"@, "(J)D"@)) == Some(Native::JavaLang(JavaLang::LongBitsToDouble))
            &&& bound.get(("java/lang/Class"@, "getPrimitiveClass"@, "(Ljava/lang/String;)Ljava/lang/Class;"@)) == Some(Native::JavaLang(JavaLang::GetPrimitiveClass))
            &&& bound.get(("java/lang/Class"@, "forName0"@, "(Ljava/lang/String;ZLjava/lang/ClassLoader;Ljava/lang/Class;)Ljava/lang/Class;"@)) == Some(Native::JavaLang(JavaLang::ForName))
            &&& bound.get(("java/lang/Class"@, "getDeclaredFields0"@, "(Z)[Ljava/lang/reflect/Field;"@)) == Some(Native::JavaLang(JavaLang::GetDeclaredFields))
            &&& bound.get(("java/lang/Class"@, "getDeclaredMethods0"@, "(Z)[Ljava/lang/reflect/Method;"@)) == Some(Native::JavaLang(JavaLang::GetDeclaredMethods))
            &&& bound.get(("java/lang/Class"@, "getDeclaredConstructors0"@, "(Z)[Ljava/lang/reflect/Constructor;"@)) == Some(Native::JavaLang(JavaLang::GetDeclaredConstructors))
            &&& bound.get(("java/lang/Class"@, "desiredAssertionStatus0"@, "(Ljava/lang/Class;)Z"@)) == Some(Native::JavaLang(JavaLang::DesiredAssertionStatus))
            &&& bound.get(("java/lang/Class"@, "initClassName"@, "()Ljava/lang/String;"@)) == Some(Native::JavaLang(JavaLang::InitClassName))
            &&& bound.get(("java/lang/Class"@, "isInstance"@, "(Ljava/lang/Object;)Z"@)) == Some(Native::JavaLang(JavaLang::IsInstance))
            &&& bound.get(("java/lang/Class"@, "isAssignableFrom"@, "(Ljava/lang/Class;)Z"@)) == Some(Native::JavaLang(JavaLang::IsAssignableFrom))
            &&& bound.get(("java/lang/Class"@, "getSuperclass"@, "()Ljava/lang/Class;"@)) == Some(Native::JavaLang(JavaLang::GetSuperclass))
            &&& bound.get(("java/lang/Runtime"@, "maxMemory"@, "()J"@)) == Some(Native::JavaLang(JavaLang::MaxMemory))
            &&& bound.get(("java/lang/Runtime"@, "availableProcessors"@, "()I"@)) == Some(Native::JavaLang(JavaLang::AvailableProcessors))
            &&& bound.get(("java/lang/String"@, "intern"@, "()Ljava/lang/String;"@)) == Some(Native::JavaLang(JavaLang::InternString))
            &&& bound.get(("java/lang/StackTraceElement"@, "initStackTraceElements"@, "([Ljava/lang/StackTraceElement;Ljava/lang/Object;I)V"@)) == Some(Native::JavaLang(JavaLang::InitStackTraceElements))
            &&& bound.get(("java/lang/ref/Reference"@, "refersTo0"@, "(Ljava/lang/Object;)Z"@)) == Some(Native::JavaLang(JavaLang::RefersTo))
            &&& bound.get(("java/lang/ClassLoader"@, "findLoadedClass0"@, "(Ljava/lang/String;)Ljava/lang/Class;"@)) == Some(Native::JavaLang(JavaLang::FindLoadedClass))
            &&& bound.get(("java/lang/System"@, "mapLibraryName"@, "(Ljava/lang/String;)Ljava/lang/String;"@)) == Some(Native::JavaLang(JavaLang::MapLibraryName))
            &&& bound.get(("java/lang/Thread"@, "currentThread"@, "()Ljava/lang/Thread;"@)) == Some(Native::JavaLang(JavaLang::CurrentThread))
            &&& bound.get(("java/lang/Thread"@, "holdsLock"@, "(Ljava/lang/Object;)Z"@)) == Some(Native::JavaLang(JavaLang::HoldsLock))
            &&& bound.get(("java/lang/Thread"@, "yield0"@, "()V"@)) == Some(Native::JavaLang(JavaLang::Yield))
            &&& bound.get(("java/lang/Thread"@, "sleepNanos0"@, "(J)V"@)) == Some(Native::JavaLang(JavaLang::SleepNanos))
            &&& bound.get(("java/lang/Thread"@, "start0"@, "()V"@)) == Some(Native::JavaLang(JavaLang::StartThread))
            &&& bound.get(("java/lang/Thread"@, "interrupt0"@, "()V"@)) == Some(Native::JavaLang(JavaLang::Interrupt))
            &&& bound.get(("java/lang/Thread"@, "clearInterruptEvent"@, "()V"@)) == Some(Native::JavaLang(JavaLang::ClearInterruptEvent))
            &&& bound.get(("java/lang/Thread"@, "getNextThreadIdOffset"@, "()J"@)) == Some(Native::JavaLang(JavaLang::NextThreadIdOffset))
        }),
{
    reveal(built_in);
    let m0 = Map::<Key, Native>::empty();
    let m1 = sun_nio_fs::registered(m0);
    law_bindings_of_sun_nio_fs(m0);
    let m2 = jdk_internal_loader::registered(m1);
    law_bindings_of_jdk_internal_loader(m1);
    let m3 = java_io::registered(m2);
    law_bindings_of_java_io(m2);
    let m4 = java_lang_invoke::registered(m3);
    law_bindings_of_java_lang_invoke(m3);
    let m5 = jdk_internal::registered(m4);
    law_bindings_of_jdk_internal(m4);
    let m6 = jdk_internal_reflect::registered(m5);
    law_bindings_of_jdk_internal_reflect(m5);
    let m7 = java_lang::registered(m6);
    law_bindings_of_java_lang(m6);
    reveal_strlit("java/io/FileDescriptor");
    reveal_strlit("java/io/WinNTFileSystem");
    reveal_strlit("java/lang/Class");
    reveal_strlit("java/lang/ClassLoader");
    reveal_strlit("java/lang/Double");
    reveal_strlit("java/lang/Float");
    reveal_strlit("java/lang/Object");
    reveal_strlit("java/lang/Runtime");
    reveal_strlit("java/lang/StackTraceElement");
    reveal_strlit("java/lang/String");
    reveal_strlit("java/lang/System");
    reveal_strlit("java/lang/Thread");
    reveal_strlit("java/lang/Throwable");
    reveal_strlit("java/lang/invoke/MethodHandleNatives");
    reveal_strlit("java/lang/ref/Reference");
    reveal_strlit("jdk/internal/loader/BootLoader");
    reveal_strlit("jdk/internal/loader/NativeLibraries");
    reveal_strlit("jdk/internal/loader/NativeLibrary");
    reveal_strlit("jdk/internal/misc/CDS");
    reveal_strlit("jdk/internal/misc/Unsafe");
    reveal_strlit("jdk/internal/misc/VM");
    reveal_strlit("jdk/internal/reflect/DirectConstructorHandleAccessor$NativeAccessor");
    reveal_strlit("jdk/internal/reflect/DirectMethodHandleAccessor$NativeAccessor");
    reveal_strlit("jdk/internal/reflect/Reflection");
    reveal_strlit("sun/nio/fs/WindowsNativeDispatcher");
    assert("java/io/FileDescriptor"@.len() == 22);
    assert("java/io/WinNTFileSystem"@.len() == 23 && "java/io/WinNTFileSystem"@[5] == 'i');
    assert("java/lang/Class"@.len() == 15);
    assert("java/lang/ClassLoader"@.len() == 21 && "java/lang/ClassLoader"@[1] == 'a');
    assert("java/lang/Double"@.len() == 16);
    assert("java/lang/Float"@.len() == 15);
    assert("java/lang/Object"@.len() == 16);
    assert("java/lang/Runtime"@.len() == 17);
    assert("java/lang/StackTraceElement"@.len() == 27);
    assert("java/lang/String"@.len() == 16);
    assert("java/lang/System"@.len() == 16);
    assert("java/lang/Thread"@.len() == 16);
    assert("java/lang/Throwable"@.len() == 19);
    assert("java/lang/invoke/MethodHandleNatives"@.len() == 36);
    assert("java/lang/ref/Reference"@.len() == 23 && "java/lang/ref/Reference"@[5] == 'l');
    assert("jdk/internal/loader/BootLoader"@.len() == 30);
    assert("jdk/internal/loader/NativeLibraries"@.len() == 35);
    assert("jdk/internal/loader/NativeLibrary"@.len() == 33);
    assert("jdk/internal/misc/CDS"@.len() == 21 && "jdk/internal/misc/CDS"@[1] == 'd');
    assert("jdk/internal/misc/Unsafe"@.len() == 24);
    assert("jdk/internal/misc/VM"@.len() == 20);
    assert("jdk/internal/reflect/DirectConstructorHandleAccessor$NativeAccessor"@.len() == 67);
    assert("jdk/internal/reflect/DirectMethodHandleAccessor$NativeAccessor"@.len() == 62);
    assert("jdk/internal/reflect/Reflection"@.len() == 31);
    assert("sun/nio/fs/WindowsNativeDispatcher"@.len() == 34);
}

/// A native method runs what it is bound to, in a frame of its own, which is gone with the result; `registerNatives` of
/// every class does nothing.
pub proof fn law_bound_methods_run(s: State, key: Key, native: Native, this: Option<Reference>, args: Seq<Value>)
    requires
        s.vm.natives.get(key) == Some(native),
        !(key.1 == "registerNatives"@ && key.2 == "()V"@),
    ensures
        ({
            let (t, step) = outcome(pushed(s, key.0, key.1), native, this, args);
            invoked(s, key.0, key.1, key.2, this, args) == if step is Done {
                (popped(t), step)
            } else {
                (t, step)
            }
        }),
{
}

} // verus!
