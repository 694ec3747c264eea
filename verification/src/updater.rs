//! Updates of the application itself: the version that runs, the
//! releases on offer, downloading and installing.

use vstd::prelude::*;
use vstd::string::*;
use crate::quoting::{bash_quoted, quote_bash, quote_single, single_quoted};
use crate::command::{
    bash, builds, option_text, powershell_clean, Invocation, InvocationView,
};
use crate::disks::{u64_at, u64_field};
use crate::error::{ErrorKind, ErrorView};
use crate::execution::{utf8_lossy, ExecutionResult};
use crate::json::{decode, json_decoding, JsonTree, JsonValue};
use crate::mapper::{
    acknowledge, acknowledged, bool_at, bool_field, map_records, mapped_all, read_output, Record,
    snippet_of, text_at, text_field, text_field_or, text_or, typed_output, yields, yields_unit,
};
use crate::normalize::{payload, snippet};
use crate::text::{
    chars_of, contains, ends_with, has_suffix, includes, lines, lines_of, lower, lowercase,
    parse_unsigned, parsed_unsigned, same_text, slice_of, space, split, split_on, strip_leading,
    text_of, trim, trimmed, views, without_leading,
};

verus! {

// ---------------------------------------------------------------------------
// Versions
// ---------------------------------------------------------------------------

/// The numbers among the pieces of a version between its points, in
/// order: each piece that is a number of 32 bits.
pub open spec fn numbers_among(pieces: Seq<Seq<char>>) -> Seq<nat>
    decreases pieces.len(),
{
    if pieces.len() == 0 {
        Seq::empty()
    } else {
        let init = numbers_among(pieces.drop_last());
        match parsed_unsigned(pieces.last(), u32::MAX as nat) {
            Some(n) => init.push(n),
            None => init,
        }
    }
}

/// The numbers of a version.
pub open spec fn version_numbers(version: Seq<char>) -> Seq<nat> {
    numbers_among(split(version, '.'))
}

/// The number at position `i` of a version; zero past its end.
pub open spec fn number_at(numbers: Seq<nat>, i: int) -> nat {
    if 0 <= i < numbers.len() {
        numbers[i]
    } else {
        0
    }
}

/// Whether version `a` is newer than version `b`: at the first position
/// where their numbers differ, `a` has the greater one.
pub open spec fn newer(a: Seq<nat>, b: Seq<nat>) -> bool {
    exists|i: int| leads_at(a, b, i)
}

/// Whether `a` and `b` agree before position `i` and `a` has the greater
/// number there.
pub open spec fn leads_at(a: Seq<nat>, b: Seq<nat>, i: int) -> bool {
    &&& 0 <= i
    &&& number_at(a, i) > number_at(b, i)
    &&& forall|j: int| 0 <= j < i ==> #[trigger] number_at(a, j) == number_at(b, j)
}

fn read_version(version: &str) -> (r: Vec<u32>)
    ensures
        r@.len() == version_numbers(version@).len(),
        forall|i: int| 0 <= i < r@.len() ==> #[trigger] r@[i] as nat == version_numbers(version@)[i],
{
    let pieces = split_on(&chars_of(version), '.');
    let ghost all = views(pieces@);
    let mut r: Vec<u32> = Vec::new();
    let mut i: usize = 0;
    while i < pieces.len()
        invariant
            i <= pieces.len(),
            all == views(pieces@),
            r@.len() == numbers_among(all.subrange(0, i as int)).len(),
            forall|k: int|
                0 <= k < r@.len() ==> #[trigger] r@[k] as nat == numbers_among(
                    all.subrange(0, i as int),
                )[k],
        decreases pieces.len() - i,
    {
        proof {
            let next = all.subrange(0, i + 1);
            assert(next.drop_last() == all.subrange(0, i as int));
            assert(next.last() == pieces@[i as int]@);
        }
        match parse_unsigned(&pieces[i], 0xFFFF_FFFF) {
            Some(n) => {
                r.push(n as u32);
            },
            None => {},
        }
        i += 1;
    }
    assert(all.subrange(0, pieces.len() as int) == all);
    r
}

/// Whether the version `latest` is newer than the version `current`.
pub fn is_newer_version(latest: &str, current: &str) -> (r: bool)
    ensures
        r == newer(version_numbers(latest@), version_numbers(current@)),
{
    let a = read_version(latest);
    let b = read_version(current);
    let ghost x = version_numbers(latest@);
    let ghost y = version_numbers(current@);
    let n = if a.len() > b.len() {
        a.len()
    } else {
        b.len()
    };
    let mut i: usize = 0;
    while i < n
        invariant
            i <= n,
            n >= a.len(),
            n >= b.len(),
            x == version_numbers(latest@),
            y == version_numbers(current@),
            a@.len() == x.len(),
            b@.len() == y.len(),
            forall|k: int| 0 <= k < a@.len() ==> #[trigger] a@[k] as nat == x[k],
            forall|k: int| 0 <= k < b@.len() ==> #[trigger] b@[k] as nat == y[k],
            forall|j: int| 0 <= j < i ==> #[trigger] number_at(x, j) == number_at(y, j),
        decreases n - i,
    {
        let p: u32 = if i < a.len() {
            a[i]
        } else {
            0
        };
        let q: u32 = if i < b.len() {
            b[i]
        } else {
            0
        };
        assert(p as nat == number_at(x, i as int));
        assert(q as nat == number_at(y, i as int));
        if p > q {
            assert(leads_at(x, y, i as int));
            return true;
        } else if p < q {
            assert forall|k: int| !leads_at(x, y, k) by {
                if k > i {
                    assert(number_at(x, i as int) != number_at(y, i as int));
                }
            }
            return false;
        }
        i += 1;
    }
    assert forall|k: int| !leads_at(x, y, k) by {
        if 0 <= k {
            assert(number_at(x, k) == number_at(y, k));
        }
    }
    false
}

// ---------------------------------------------------------------------------
// What is reported to the caller
// ---------------------------------------------------------------------------

#[derive(Debug)]
pub struct UpdateInfo {
    pub version: String,
    pub url: String,
    pub release_date: String,
    pub description: String,
    pub is_critical: bool,
    /// The size of the download in bytes.
    pub size_bytes: u64,
    pub changes: Vec<String>,
}

pub struct UpdateInfoView {
    pub version: Seq<char>,
    pub url: Seq<char>,
    pub release_date: Seq<char>,
    pub description: Seq<char>,
    pub is_critical: bool,
    pub size_bytes: u64,
    pub changes: Seq<Seq<char>>,
}

impl View for UpdateInfo {
    type V = UpdateInfoView;

    open spec fn view(&self) -> UpdateInfoView {
        UpdateInfoView {
            version: self.version@,
            url: self.url@,
            release_date: self.release_date@,
            description: self.description@,
            is_critical: self.is_critical,
            size_bytes: self.size_bytes,
            changes: views(self.changes@),
        }
    }
}

#[derive(Debug)]
pub struct UpdateCheckResult {
    pub update_available: bool,
    pub current_version: String,
    pub latest_version: String,
    pub update_info: Option<UpdateInfo>,
}

pub struct UpdateCheckView {
    pub update_available: bool,
    pub current_version: Seq<char>,
    pub latest_version: Seq<char>,
    pub update_info: Option<UpdateInfoView>,
}

impl View for UpdateCheckResult {
    type V = UpdateCheckView;

    open spec fn view(&self) -> UpdateCheckView {
        UpdateCheckView {
            update_available: self.update_available,
            current_version: self.current_version@,
            latest_version: self.latest_version@,
            update_info: match self.update_info {
                Some(info) => Some(info@),
                None => None,
            },
        }
    }
}

#[derive(Debug)]
pub struct DownloadResult {
    pub success: bool,
    pub file_path: String,
    pub message: String,
}

pub struct DownloadView {
    pub success: bool,
    pub file_path: Seq<char>,
    pub message: Seq<char>,
}

impl View for DownloadResult {
    type V = DownloadView;

    open spec fn view(&self) -> DownloadView {
        DownloadView {
            success: self.success,
            file_path: self.file_path@,
            message: self.message@,
        }
    }
}

#[derive(Debug)]
pub struct InstallResult {
    pub success: bool,
    pub message: String,
    pub restart_required: bool,
}

pub struct InstallView {
    pub success: bool,
    pub message: Seq<char>,
    pub restart_required: bool,
}

impl View for InstallResult {
    type V = InstallView;

    open spec fn view(&self) -> InstallView {
        InstallView {
            success: self.success,
            message: self.message@,
            restart_required: self.restart_required,
        }
    }
}

// ---------------------------------------------------------------------------
// Scripts
// ---------------------------------------------------------------------------

/// Writes the version that the package file of the application names, or the first version where there is none.
pub const CURRENT_VERSION_POWERSHELL: &'static str = r#"
        $CargoFile = Get-ChildItem -Path . -Recurse -Filter "Cargo.toml" | Select-Object -First 1 -ExpandProperty FullName
        
        if (-not $CargoFile) {
            # Version par défaut si le fichier n'est pas trouvé
            Write-Output "1.0.0"
            exit 0
        }
        
        # Lire le contenu et extraire la version
        $Content = Get-Content -Path $CargoFile
        $VersionLine = $Content | Where-Object { $_ -match "^version\s*=\s*`"([^`"]+)`"" }
        
        if ($VersionLine -match "version\s*=\s*`"([^`"]+)`"") {
            Write-Output $Matches[1]
        } else {
            # Version par défaut si non trouvée
            Write-Output "1.0.0"
        }
        "#;

/// Writes the version that the package file of the application names, or the first version where there is none.
pub const CURRENT_VERSION_BASH: &'static str = r#"
        # Rechercher le fichier Cargo.toml dans les répertoires parents
        CARGO_FILE=$(find $(pwd) -name "Cargo.toml" -type f | head -n 1)
        
        if [ -z "$CARGO_FILE" ]; then
            # Si on ne trouve pas le fichier, retourner version par défaut
            echo "1.0.0"
            exit 0
        fi
        
        # Extraire la version avec grep et sed
        VERSION=$(grep -m 1 "version" "$CARGO_FILE" | sed -E 's/.*"([^"]+)".*/\1/')
        
        if [ -z "$VERSION" ]; then
            # Version par défaut si non trouvée
            echo "1.0.0"
        else
            echo "$VERSION"
        fi
        "#;

/// Asks the address in `$ReleasesUrl` for the releases of the application and
/// writes them as a JSON list.
pub const RELEASES_POWERSHELL: &'static str = r#"
            try {
                $headers = @{
                    "Accept" = "application/vnd.github.v3+json"
                    "User-Agent" = "WindowsAdminTool/1.0"
                }
                
                # Récupérer la réponse de l'API GitHub
                $response = Invoke-RestMethod -Uri $ReleasesUrl -Headers $headers -Method Get -ErrorAction Stop
                
                # Vérifier si la réponse est déjà un tableau ou un objet unique
                if ($response -is [array]) {
                    # C'est un tableau, le convertir en JSON
                    $response | ConvertTo-Json -Depth 10
                } else {
                    # C'est un objet unique, l'envelopper dans un tableau et convertir en JSON
                    @($response) | ConvertTo-Json -Depth 10
                }
            } catch {
                Write-Error "Erreur lors de la requête API: $_"
                exit 1
            }
            "#;

/// Asks the address in `$RELEASES_URL` for the releases of the application
/// and writes them as a JSON list.
pub const RELEASES_BASH: &'static str = r#"
            # Récupérer la réponse de l'API GitHub
            API_RESPONSE=$(curl -s -H "Accept: application/vnd.github.v3+json" -H "User-Agent: WindowsAdminTool/1.0" "$RELEASES_URL")
            
            # Vérifier si la réponse est un tableau ou un objet
            FIRST_CHAR=$(echo "$API_RESPONSE" | tr -d '[:space:]' | cut -c1)
            
            if [ "$FIRST_CHAR" = "[" ]; then
                # C'est déjà un tableau, retourner tel quel
                echo "$API_RESPONSE" | tr -d '\r'
            elif [ "$FIRST_CHAR" = "{" ]; then
                # C'est un objet, l'envelopper dans un tableau
                echo "[$API_RESPONSE]" | tr -d '\r'
            else
                # Format inconnu ou erreur
                echo "Erreur: Format de réponse inattendu" >&2
                exit 1
            fi
            "#;

/// Downloads `$UpdateUrl` to `$DownloadPathGiven` and reports as JSON.
pub const DOWNLOAD_POWERSHELL: &'static str = r#"
            try {
                $ProgressPreference = 'SilentlyContinue'  # Désactiver la barre de progression qui ralentit
                $TempDir = $TempDirGiven
                $DownloadPath = $DownloadPathGiven
                
                Write-Output "Début du téléchargement depuis $UpdateUrl ..."
                
                # Vérifier et créer le dossier si nécessaire
                if (-not (Test-Path -Path $TempDir -PathType Container)) {
                    New-Item -Path $TempDir -ItemType Directory -Force | Out-Null
                }
                
                # Télécharger le fichier
                Invoke-WebRequest -Uri $UpdateUrl -OutFile $DownloadPath -UseBasicParsing
                
                # Vérifier que le téléchargement a réussi
                if (Test-Path $DownloadPath) {
                    $FileSize = (Get-Item -Path $DownloadPath).Length
                    $FileSizeKB = [Math]::Round($FileSize / 1KB, 2)
                    
                    # Créer un objet JSON de résultat
                    $Result = @{
                        Success = $true
                        FilePath = $DownloadPath
                        Message = "Téléchargement réussi. Taille du fichier: $FileSizeKB KB"
                    }
                    
                    ConvertTo-Json -InputObject $Result
                } else {
                    throw "Le fichier n'existe pas après le téléchargement"
                }
            } catch {
                Write-Error "Erreur lors du téléchargement: $_"
                exit 1
            }
            "#;

/// Downloads `$UPDATE_URL` to `$DOWNLOAD_PATH` and reports as JSON.
pub const DOWNLOAD_BASH: &'static str = r#"
            # Afficher un message de début de téléchargement
            echo "Début du téléchargement depuis $UPDATE_URL..."
            
            # Téléchargement avec curl
            curl -s -L -o "$DOWNLOAD_PATH" "$UPDATE_URL"
            
            # Vérifier le statut de curl
            if [ $? -eq 0 ]; then
                # Vérifier que le fichier existe et obtenir sa taille
                if [ -f "$DOWNLOAD_PATH" ]; then
                    FILE_SIZE=$(stat -c%s "$DOWNLOAD_PATH" 2>/dev/null || stat -f%z "$DOWNLOAD_PATH")
                    FILE_SIZE_KB=$(echo "$FILE_SIZE/1024" | bc)
                    
                    # Créer un JSON de résultat
                    cat <<EOF
                    {
                        "Success": true,
                        "FilePath": "$DOWNLOAD_PATH",
                        "Message": "Téléchargement réussi. Taille du fichier: $FILE_SIZE_KB KB"
                    }
EOF
                    exit 0
                else
                    echo "Échec du téléchargement: fichier non créé" >&2
                    exit 1
                fi
            else
                echo "Erreur lors du téléchargement avec curl" >&2
                exit 1
            fi
            "#;

/// Installs the package at `$FilePathGiven` and reports as JSON.
pub const INSTALL_MSI_POWERSHELL: &'static str = r#"
                try {
                    $FilePath = $FilePathGiven
                    
                    Write-Output "Vérification du fichier $FilePath"
                    if (-not (Test-Path -Path $FilePath -PathType Leaf)) {
                        throw "Le fichier d'installation n'existe pas: $FilePath"
                    }
                    
                    Write-Output "Démarrage de l'installation MSI..."
                    
                    # Exécuter msiexec en arrière-plan
                    $Process = Start-Process -FilePath "msiexec.exe" -ArgumentList "/i `"$FilePath`" /quiet /norestart" -PassThru -Wait
                    $ExitCode = $Process.ExitCode
                    
                    Write-Output "Installation terminée avec le code de sortie: $ExitCode"
                    
                    # Analyser le code de sortie
                    if ($ExitCode -eq 0) {
                        $Result = @{
                            Success = $true
                            Message = "Installation MSI réussie"
                            RestartRequired = $false
                        }
                    } elseif ($ExitCode -eq 3010) {
                        $Result = @{
                            Success = $true
                            Message = "Installation MSI réussie, redémarrage requis"
                            RestartRequired = $true
                        }
                    } else {
                        $Result = @{
                            Success = $false
                            Message = "Échec de l'installation MSI, code de sortie: $ExitCode"
                            RestartRequired = $false
                        }
                    }
                    
                    ConvertTo-Json -InputObject $Result
                } catch {
                    Write-Error $_.Exception.Message
                    exit 1
                }
                "#;

/// Runs the installer at `$FilePathGiven` and reports as JSON.
pub const INSTALL_EXE_POWERSHELL: &'static str = r#"
                try {
                    $FilePath = $FilePathGiven
                    
                    Write-Output "Vérification du fichier $FilePath"
                    if (-not (Test-Path -Path $FilePath -PathType Leaf)) {
                        throw "Le fichier d'installation n'existe pas: $FilePath"
                    }
                    
                    Write-Output "Démarrage de l'installation EXE..."
                    
                    # Exécuter l'exe avec les paramètres silencieux
                    $Process = Start-Process -FilePath $FilePath -ArgumentList "/S" -PassThru -Wait
                    $ExitCode = $Process.ExitCode
                    
                    Write-Output "Installation terminée avec le code de sortie: $ExitCode"
                    
                    # Analyser le code de sortie
                    if ($ExitCode -eq 0) {
                        $Result = @{
                            Success = $true
                            Message = "Installation EXE réussie"
                            RestartRequired = $false
                        }
                    } else {
                        $Result = @{
                            Success = $false
                            Message = "Échec de l'installation EXE, code de sortie: $ExitCode"
                            RestartRequired = $false
                        }
                    }
                    
                    ConvertTo-Json -InputObject $Result
                } catch {
                    Write-Error $_.Exception.Message
                    exit 1
                }
                "#;

/// Installs the package at `$FILE_PATH` and reports as JSON.
pub const INSTALL_MSI_BASH: &'static str = r#"
                # Vérifier que le fichier existe
                if [ ! -f "$FILE_PATH" ]; then
                    echo "Le fichier d'installation n'existe pas: $FILE_PATH" >&2
                    exit 1
                fi
                
                # Installation via msiexec (utilisation de wine en environnement bash)
                # Note: cela suppose que wine est installé pour les environnements non-Windows
                # Sur un vrai système Windows, il faudrait plutôt utiliser cmd.exe ou explorer.exe pour exécuter le MSI
                
                if command -v msiexec >/dev/null 2>&1; then
                    # Si msiexec est disponible directement (Windows natif)
                    echo "Installation via msiexec natif..."
                    msiexec /i "$FILE_PATH" /quiet /norestart &
                    INSTALL_PID=$!
                    
                    # Attendre que l'installation soit terminée
                    wait $INSTALL_PID
                    EXIT_CODE=$?
                    
                elif command -v wine >/dev/null 2>&1; then
                    # Si wine est disponible (Linux/macOS)
                    echo "Installation via wine msiexec..."
                    wine msiexec /i "$FILE_PATH" /quiet /norestart &
                    INSTALL_PID=$!
                    
                    # Attendre que l'installation soit terminée
                    wait $INSTALL_PID
                    EXIT_CODE=$?
                    
                else
                    echo "Impossible de trouver un moyen d'installer le fichier MSI" >&2
                    EXIT_CODE=1
                fi
                
                # Analyser le code de sortie
                if [ $EXIT_CODE -eq 0 ]; then
                    cat <<EOF
                    {
                        "Success": true,
                        "Message": "Installation MSI réussie",
                        "RestartRequired": false
                    }
EOF
                elif [ $EXIT_CODE -eq 3010 ]; then
                    cat <<EOF
                    {
                        "Success": true,
                        "Message": "Installation MSI réussie, redémarrage requis",
                        "RestartRequired": true
                    }
EOF
                else
                    cat <<EOF
                    {
                        "Success": false,
                        "Message": "Échec de l'installation MSI, code de sortie: $EXIT_CODE",
                        "RestartRequired": false
                    }
EOF
                fi
                "#;

/// Runs the installer at `$FILE_PATH` and reports as JSON.
pub const INSTALL_EXE_BASH: &'static str = r#"
                # Vérifier que le fichier existe
                if [ ! -f "$FILE_PATH" ]; then
                    echo "Le fichier d'installation n'existe pas: $FILE_PATH" >&2
                    exit 1
                fi
                
                # Rendre le fichier exécutable
                chmod +x "$FILE_PATH"
                
                # Lancer l'exécutable (dans un environnement Windows via Git Bash)
                # Note: en environnement Linux/macOS, il faudrait utiliser wine
                
                if [[ "$OSTYPE" == "msys"* ]] || [[ "$OSTYPE" == "cygwin"* ]]; then
                    # Environnement Windows (Git Bash/Msys/Cygwin)
                    echo "Installation via exécutable natif..."
                    "$FILE_PATH" /S &
                    INSTALL_PID=$!
                    
                    # Attendre que l'installation soit terminée
                    wait $INSTALL_PID
                    EXIT_CODE=$?
                    
                elif command -v wine >/dev/null 2>&1; then
                    # Si wine est disponible (Linux/macOS)
                    echo "Installation via wine..."
                    wine "$FILE_PATH" /S &
                    INSTALL_PID=$!
                    
                    # Attendre que l'installation soit terminée
                    wait $INSTALL_PID
                    EXIT_CODE=$?
                    
                else
                    echo "Impossible de trouver un moyen d'installer le fichier EXE" >&2
                    EXIT_CODE=1
                fi
                
                # Analyser le code de sortie
                if [ $EXIT_CODE -eq 0 ]; then
                    cat <<EOF
                    {
                        "Success": true,
                        "Message": "Installation EXE réussie",
                        "RestartRequired": false
                    }
EOF
                else
                    cat <<EOF
                    {
                        "Success": false,
                        "Message": "Échec de l'installation EXE, code de sortie: $EXIT_CODE",
                        "RestartRequired": false
                    }
EOF
                fi
                "#;

/// Schedules a new start of the application.
pub const RESTART_POWERSHELL: &'static str = r#"
        try {
            # Obtenir le chemin de l'exécutable actuel
            $ExePath = (Get-Process -Id $PID).Path
            
            if (-not $ExePath) {
                # Si le chemin ne peut pas être trouvé, essayer de le trouver par d'autres moyens
                $ExePath = (Get-Process -Id $PID).MainModule.FileName
            }
            
            if (-not $ExePath) {
                # Si toujours pas trouvé, utiliser un autre moyen
                $ExePath = [System.Diagnostics.Process]::GetCurrentProcess().MainModule.FileName
            }
            
            Write-Output "Chemin d'exécutable détecté: $ExePath"
            
            # Créer un script temporaire pour le redémarrage
            $TempScript = [System.IO.Path]::GetTempFileName() + ".ps1"
            
            # Contenu du script de redémarrage
            $ScriptContent = @"
            Start-Sleep -Seconds 2  # Attendre que l'application se ferme
            Start-Process -FilePath "$ExePath"
            Remove-Item -Path "$TempScript"  # Auto-suppression
"@
            
            # Écrire le script
            Set-Content -Path $TempScript -Value $ScriptContent
            
            # Lancer le script en arrière-plan
            Start-Process -FilePath "powershell.exe" -ArgumentList "-NoProfile -ExecutionPolicy Bypass -File `"$TempScript`"" -WindowStyle Hidden
            
            Write-Output "Redémarrage programmé. L'application va maintenant se fermer."
            exit 0
        } catch {
            Write-Error "Erreur lors du redémarrage: $_"
            exit 1
        }
        "#;

/// Schedules a new start of the application.
pub const RESTART_BASH: &'static str = r#"
        # Attendre un peu pour que l'UI ait le temps de traiter
        sleep 1
        
        # Obtenir le PID actuel
        CURRENT_PID=$$
        
        # Obtenir le chemin de l'exécutable à partir du PID
        # Sur Windows (via Git Bash), wmic peut être utilisé
        # Sur Linux/macOS, différentes méthodes sont disponibles
        if [[ "$OSTYPE" == "msys"* ]] || [[ "$OSTYPE" == "cygwin"* ]]; then
            # Méthode Windows via Git Bash
            EXE_PATH=$(wmic process where "ProcessId=$CURRENT_PID" get ExecutablePath | grep -v ExecutablePath | tr -d ' \r\n')
        else
            # Méthode Unix/Linux
            EXE_PATH=$(readlink /proc/$CURRENT_PID/exe 2>/dev/null || ps -p $CURRENT_PID -o command= 2>/dev/null)
        fi
        
        # Créer un script temporaire qui redémarrera l'application
        TEMP_SCRIPT=$(mktemp).sh
        
        cat > "$TEMP_SCRIPT" << 'RESTART_SCRIPT'
        #!/bin/bash
        # Attendre que le processus parent se termine
        sleep 1
        # Démarrer la nouvelle instance
        "$1" &
        # Nettoyer le script
        rm -f "$0"
RESTART_SCRIPT
        
        # Rendre le script exécutable
        chmod +x "$TEMP_SCRIPT"
        
        # Exécuter le script en arrière-plan avec le chemin de l'exécutable en argument
        bash "$TEMP_SCRIPT" "$EXE_PATH" &
        
        # Indiquer le succès
        echo "Redémarrage programmé"
        "#;

/// The shell that runs a script of the application's own updates: on
/// Windows one script, elsewhere the other.
pub open spec fn shell(windows: bool, for_windows: Seq<char>, for_others: Seq<char>) -> InvocationView {
    if windows {
        powershell_clean(for_windows)
    } else {
        bash(for_others)
    }
}

fn shell_invocation(windows: bool, for_windows: String, for_others: String) -> (r: Invocation)
    ensures
        r@ == shell(windows, for_windows@, for_others@),
{
    if windows {
        Invocation::powershell_clean(for_windows)
    } else {
        Invocation::bash(for_others)
    }
}

// ---------------------------------------------------------------------------
// The version that runs
// ---------------------------------------------------------------------------

/// The version that is assumed where none can be read.
pub const FIRST_VERSION: &'static str = "1.0.0";

/// The command that asks for the version that runs.
pub fn get_current_version_command(windows: bool) -> (r: Invocation)
    ensures
        r@ == shell(windows, CURRENT_VERSION_POWERSHELL@, CURRENT_VERSION_BASH@),
{
    shell_invocation(
        windows,
        String::from_str(CURRENT_VERSION_POWERSHELL),
        String::from_str(CURRENT_VERSION_BASH),
    )
}

/// The version that runs: what the tool wrote, trimmed, or the first
/// version where it could not be run, failed or wrote nothing.
pub open spec fn current_version(outcome: Result<ExecutionResult, ErrorKind>) -> Seq<char> {
    match outcome {
        Ok(raw) => if raw.exit_success && trimmed(utf8_lossy(raw.stdout@)).len() > 0 {
            trimmed(utf8_lossy(raw.stdout@))
        } else {
            FIRST_VERSION@
        },
        Err(_) => FIRST_VERSION@,
    }
}

pub fn get_current_version_response(outcome: Result<ExecutionResult, ErrorKind>) -> (r: String)
    ensures
        r@ == current_version(outcome),
{
    match outcome {
        Ok(raw) => {
            let out = trim(&chars_of(raw.stdout_text().as_str()));
            if raw.exit_success && out.len() > 0 {
                text_of(&out)
            } else {
                String::from_str(FIRST_VERSION)
            }
        },
        Err(_) => String::from_str(FIRST_VERSION),
    }
}

// ---------------------------------------------------------------------------
// Releases
// ---------------------------------------------------------------------------

/// A file of a release.
#[derive(Debug)]
pub struct ReleaseAsset {
    pub name: String,
    pub browser_download_url: String,
    pub size: u64,
}

pub struct ReleaseAssetView {
    pub name: Seq<char>,
    pub browser_download_url: Seq<char>,
    pub size: u64,
}

impl View for ReleaseAsset {
    type V = ReleaseAssetView;

    open spec fn view(&self) -> ReleaseAssetView {
        ReleaseAssetView {
            name: self.name@,
            browser_download_url: self.browser_download_url@,
            size: self.size,
        }
    }
}

impl Record for ReleaseAsset {
    /// A file needs its name, its address and its size.
    open spec fn mapped(tree: JsonTree) -> Option<ReleaseAssetView> {
        match (
            text_at(tree, "name"@),
            text_at(tree, "browser_download_url"@),
            u64_at(tree, "size"@),
        ) {
            (Some(name), Some(browser_download_url), Some(size)) => Some(
                ReleaseAssetView { name, browser_download_url, size },
            ),
            _ => None,
        }
    }

    fn map(value: &JsonValue) -> (r: Option<ReleaseAsset>) {
        let name = text_field(value, "name")?;
        let browser_download_url = text_field(value, "browser_download_url")?;
        let size = u64_field(value, "size")?;
        Some(ReleaseAsset { name, browser_download_url, size })
    }
}

/// A release of the application.
#[derive(Debug)]
pub struct Release {
    pub tag_name: String,
    pub name: String,
    pub body: String,
    pub published_at: String,
    pub assets: Vec<ReleaseAsset>,
    pub prerelease: bool,
}

pub struct ReleaseView {
    pub tag_name: Seq<char>,
    pub name: Seq<char>,
    pub body: Seq<char>,
    pub published_at: Seq<char>,
    pub assets: Seq<ReleaseAssetView>,
    pub prerelease: bool,
}

impl View for Release {
    type V = ReleaseView;

    open spec fn view(&self) -> ReleaseView {
        ReleaseView {
            tag_name: self.tag_name@,
            name: self.name@,
            body: self.body@,
            published_at: self.published_at@,
            assets: views(self.assets@),
            prerelease: self.prerelease,
        }
    }
}

/// The files of a release, where it lists them and each can be mapped.
pub open spec fn assets_at(tree: JsonTree) -> Option<Seq<ReleaseAssetView>> {
    match tree.field("assets"@) {
        Some(JsonTree::Array(items)) => mapped_all::<ReleaseAsset>(items),
        _ => None,
    }
}

fn assets_field(value: &JsonValue) -> (r: Option<Vec<ReleaseAsset>>)
    ensures
        match r {
            Some(assets) => assets_at(value@) == Some(views(assets@)),
            None => assets_at(value@) is None,
        },
{
    match value.get("assets") {
        Some(v) => match v.as_array() {
            Some(items) => map_records::<ReleaseAsset>(items),
            None => None,
        },
        None => None,
    }
}

impl Record for Release {
    /// A release needs its tag, its name, its notes, its date and its
    /// files.
    open spec fn mapped(tree: JsonTree) -> Option<ReleaseView> {
        match (
            text_at(tree, "tag_name"@),
            text_at(tree, "name"@),
            text_at(tree, "body"@),
            text_at(tree, "published_at"@),
            assets_at(tree),
        ) {
            (Some(tag_name), Some(name), Some(body), Some(published_at), Some(assets)) => Some(
                ReleaseView {
                    tag_name,
                    name,
                    body,
                    published_at,
                    assets,
                    prerelease: match bool_at(tree, "prerelease"@) {
                        Some(b) => b,
                        None => false,
                    },
                },
            ),
            _ => None,
        }
    }

    fn map(value: &JsonValue) -> (r: Option<Release>) {
        let tag_name = text_field(value, "tag_name")?;
        let name = text_field(value, "name")?;
        let body = text_field(value, "body")?;
        let published_at = text_field(value, "published_at")?;
        let assets = assets_field(value)?;
        Some(
            Release {
                tag_name,
                name,
                body,
                published_at,
                assets,
                prerelease: match bool_field(value, "prerelease") {
                    Some(b) => b,
                    None => false,
                },
            },
        )
    }
}

/// The position of the first release that is no pre-release, or the
/// number of releases.
pub open spec fn first_stable(releases: Seq<ReleaseView>) -> int
    decreases releases.len(),
{
    if releases.len() == 0 || !releases[0].prerelease {
        0
    } else {
        1 + first_stable(releases.drop_first())
    }
}

/// The position of the release that counts as the latest: the first that
/// is no pre-release, or the first of all where there is no such.
pub open spec fn latest_position(releases: Seq<ReleaseView>) -> int {
    if first_stable(releases) < releases.len() {
        first_stable(releases)
    } else {
        0
    }
}

fn find_latest(releases: &Vec<Release>) -> (k: usize)
    requires
        releases.len() > 0,
    ensures
        k == latest_position(views(releases@)),
        k < releases.len(),
{
    let ghost all = views(releases@);
    let mut k: usize = 0;
    assert(all.subrange(0, all.len() as int) == all);
    while k < releases.len() && releases[k].prerelease
        invariant
            k <= releases.len(),
            all == views(releases@),
            first_stable(all) == k + first_stable(all.subrange(k as int, all.len() as int)),
        decreases releases.len() - k,
    {
        let ghost rest = all.subrange(k as int, all.len() as int);
        assert(rest[0] == releases@[k as int]@);
        assert(rest.drop_first() == all.subrange(k + 1, all.len() as int));
        k += 1;
    }
    proof {
        let rest = all.subrange(k as int, all.len() as int);
        if k < releases.len() {
            assert(rest[0] == releases@[k as int]@);
        }
    }
    if k < releases.len() {
        k
    } else {
        0
    }
}

pub const MSI_SUFFIX: &'static str = ".msi";

pub const EXE_SUFFIX: &'static str = ".exe";

/// Whether a file is one that installs.
pub open spec fn is_installer(asset: ReleaseAssetView) -> bool {
    ends_with(asset.name, MSI_SUFFIX@) || ends_with(asset.name, EXE_SUFFIX@)
}

/// The position of the first file that installs, or the number of files.
pub open spec fn installer_position(assets: Seq<ReleaseAssetView>) -> int
    decreases assets.len(),
{
    if assets.len() == 0 || is_installer(assets[0]) {
        0
    } else {
        1 + installer_position(assets.drop_first())
    }
}

fn find_installer(assets: &Vec<ReleaseAsset>) -> (k: usize)
    ensures
        k == installer_position(views(assets@)),
        k <= assets.len(),
{
    let ghost all = views(assets@);
    let mut k: usize = 0;
    assert(all.subrange(0, all.len() as int) == all);
    while k < assets.len() && !(has_suffix(
        &chars_of(assets[k].name.as_str()),
        &chars_of(MSI_SUFFIX),
    ) || has_suffix(&chars_of(assets[k].name.as_str()), &chars_of(EXE_SUFFIX)))
        invariant
            k <= assets.len(),
            all == views(assets@),
            installer_position(all) == k + installer_position(
                all.subrange(k as int, all.len() as int),
            ),
        decreases assets.len() - k,
    {
        let ghost rest = all.subrange(k as int, all.len() as int);
        assert(rest[0] == assets@[k as int]@);
        assert(rest.drop_first() == all.subrange(k + 1, all.len() as int));
        k += 1;
    }
    proof {
        let rest = all.subrange(k as int, all.len() as int);
        if k < assets.len() {
            assert(rest[0] == assets@[k as int]@);
        }
    }
    k
}

pub const SEE_NOTES: &'static str = "Consultez les notes de version sur GitHub";

/// Whether a line of the notes names a change: trimmed, it starts with a
/// dash or a star.
pub open spec fn is_change(line: Seq<char>) -> bool {
    trimmed(line).len() > 0 && (trimmed(line)[0] == '-' || trimmed(line)[0] == '*')
}

/// The change that a line names: the line without the dashes and then the
/// stars at its start, trimmed.
pub open spec fn change_of(line: Seq<char>) -> Seq<char> {
    trimmed(without_leading(without_leading(line, '-'), '*'))
}

/// The changes among the lines of the notes, in order.
pub open spec fn changes_among(ls: Seq<Seq<char>>) -> Seq<Seq<char>>
    decreases ls.len(),
{
    if ls.len() == 0 {
        Seq::empty()
    } else {
        let init = changes_among(ls.drop_last());
        if is_change(ls.last()) {
            init.push(change_of(ls.last()))
        } else {
            init
        }
    }
}

/// The changes that the notes of a release name; a pointer to the notes
/// where they name none.
pub open spec fn changes_of(body: Seq<char>) -> Seq<Seq<char>> {
    if changes_among(lines(body)).len() == 0 {
        seq![SEE_NOTES@]
    } else {
        changes_among(lines(body))
    }
}

fn read_changes(body: &str) -> (r: Vec<String>)
    ensures
        views(r@) == changes_of(body@),
{
    let ls = lines_of(&chars_of(body));
    let ghost all = views(ls@);
    let mut r: Vec<String> = Vec::new();
    let mut i: usize = 0;
    assert(views(r@) =~= Seq::<Seq<char>>::empty());
    while i < ls.len()
        invariant
            i <= ls.len(),
            all == views(ls@),
            views(r@) == changes_among(all.subrange(0, i as int)),
        decreases ls.len() - i,
    {
        proof {
            let next = all.subrange(0, i + 1);
            assert(next.drop_last() == all.subrange(0, i as int));
            assert(next.last() == ls@[i as int]@);
        }
        let t = trim(&ls[i]);
        if t.len() > 0 && (t[0] == '-' || t[0] == '*') {
            let change = trim(
                &strip_leading(&strip_leading(&ls[i], '-'), '*'),
            );
            let ghost before = views(r@);
            r.push(text_of(&change));
            assert(views(r@) =~= before.push(change@));
        }
        i += 1;
    }
    assert(all.subrange(0, ls.len() as int) == all);
    if r.len() == 0 {
        r.push(String::from_str(SEE_NOTES));
        assert(views(r@) =~= seq![SEE_NOTES@]);
    }
    r
}

/// What a check finds where no update is on offer.
pub open spec fn no_update(current: Seq<char>, latest: Seq<char>) -> UpdateCheckView {
    UpdateCheckView {
        update_available: false,
        current_version: current,
        latest_version: latest,
        update_info: None,
    }
}

/// The version that a release is tagged with: its tag without the letter
/// that may stand in front of the number.
pub open spec fn tagged_version(release: ReleaseView) -> Seq<char> {
    without_leading(release.tag_name, 'v')
}

/// What the releases on offer mean for the version that runs. The latest
/// release counts. Where it is newer, it is described: with the address
/// and the size of its first file that installs, where it has one, and
/// with the changes that its notes name.
pub open spec fn offer_from(current: Seq<char>, releases: Seq<ReleaseView>) -> UpdateCheckView {
    if releases.len() == 0 {
        no_update(current, current)
    } else {
        let latest = releases[latest_position(releases)];
        let version = tagged_version(latest);
        if !newer(version_numbers(version), version_numbers(current)) {
            no_update(current, version)
        } else {
            let at = installer_position(latest.assets);
            UpdateCheckView {
                update_available: true,
                current_version: current,
                latest_version: version,
                update_info: Some(
                    if at < latest.assets.len() {
                        UpdateInfoView {
                            version,
                            url: latest.assets[at].browser_download_url,
                            release_date: latest.published_at,
                            description: latest.name,
                            is_critical: false,
                            size_bytes: latest.assets[at].size,
                            changes: changes_of(latest.body),
                        }
                    } else {
                        UpdateInfoView {
                            version,
                            url: Seq::empty(),
                            release_date: latest.published_at,
                            description: latest.name,
                            is_critical: false,
                            size_bytes: 0,
                            changes: seq![SEE_NOTES@],
                        }
                    },
                ),
            }
        }
    }
}

fn without_update(current: &str, latest: String) -> (r: UpdateCheckResult)
    ensures
        r@ == no_update(current@, latest@),
{
    UpdateCheckResult {
        update_available: false,
        current_version: String::from_str(current),
        latest_version: latest,
        update_info: None,
    }
}

/// What the releases on offer mean for the version that runs.
pub fn weigh_releases(current: &str, releases: &Vec<Release>) -> (r: UpdateCheckResult)
    ensures
        r@ == offer_from(current@, views(releases@)),
{
    if releases.len() == 0 {
        return without_update(current, String::from_str(current));
    }
    let k = find_latest(releases);
    let latest = &releases[k];
    assert(views(releases@)[k as int] == latest@);
    let version = text_of(&strip_leading(&chars_of(latest.tag_name.as_str()), 'v'));
    if !is_newer_version(version.as_str(), current) {
        return without_update(current, version);
    }
    let at = find_installer(&latest.assets);
    let info = if at < latest.assets.len() {
        assert(views(latest.assets@)[at as int] == latest.assets@[at as int]@);
        UpdateInfo {
            version: version.clone(),
            url: latest.assets[at].browser_download_url.clone(),
            release_date: latest.published_at.clone(),
            description: latest.name.clone(),
            is_critical: false,
            size_bytes: latest.assets[at].size,
            changes: read_changes(latest.body.as_str()),
        }
    } else {
        let mut changes: Vec<String> = Vec::new();
        changes.push(String::from_str(SEE_NOTES));
        assert(views(changes@) =~= seq![SEE_NOTES@]);
        UpdateInfo {
            version: version.clone(),
            url: String::new(),
            release_date: latest.published_at.clone(),
            description: latest.name.clone(),
            is_critical: false,
            size_bytes: 0,
            changes,
        }
    };
    UpdateCheckResult {
        update_available: true,
        current_version: String::from_str(current),
        latest_version: version,
        update_info: Some(info),
    }
}

pub const MESSAGE_MARK: &'static str = "\"message\":";

pub const DOCUMENTATION_MARK: &'static str = "\"documentation_url\":";

pub const RATE_LIMIT: &'static str = "rate limit";

pub const UNKNOWN_ERROR: &'static str = "Erreur inconnue";

pub const SERVICE_ERROR: &'static str = "Erreur de l'API GitHub: ";

pub const UNREADABLE_ERROR: &'static str =
    "Erreur de l'API GitHub: Impossible d'analyser la réponse";

/// Whether an answer of the release service is a report of an error.
pub open spec fn is_error_report(out: Seq<char>) -> bool {
    contains(out, MESSAGE_MARK@) && contains(out, DOCUMENTATION_MARK@)
}

/// What an error that the release service reports means: no update where
/// it says that the limit of requests is reached, else a failure with what
/// it says.
pub open spec fn error_report(current: Seq<char>, report: Option<JsonTree>) -> Result<
    UpdateCheckView,
    ErrorView,
> {
    match report {
        None => Err(ErrorView::Unavailable { detail: UNREADABLE_ERROR@ }),
        Some(tree) => {
            let message = text_or(tree, "message"@, UNKNOWN_ERROR@);
            if contains(message, RATE_LIMIT@) {
                Ok(no_update(current, current))
            } else {
                Err(ErrorView::Unavailable { detail: SERVICE_ERROR@ + message })
            }
        },
    }
}

/// What an error that the release service reports means.
pub fn weigh_error_report(current: &str, report: Option<JsonValue>) -> (r: Result<
    UpdateCheckResult,
    ErrorKind,
>)
    ensures
        yields(
            r,
            error_report(
                current@,
                match report {
                    Some(v) => Some(v@),
                    None => None,
                },
            ),
        ),
{
    match report {
        None => Err(ErrorKind::unavailable(UNREADABLE_ERROR)),
        Some(value) => {
            let message = text_field_or(&value, "message", UNKNOWN_ERROR);
            if includes(&chars_of(message.as_str()), &chars_of(RATE_LIMIT)) {
                Ok(without_update(current, String::from_str(current)))
            } else {
                Err(
                    ErrorKind::Unavailable {
                        detail: String::from_str(SERVICE_ERROR).concat(message.as_str()),
                    },
                )
            }
        },
    }
}

/// What the answer of the release service means for the version that
/// runs.
pub open spec fn check_result(current: Seq<char>, out: Seq<char>) -> Result<
    UpdateCheckView,
    ErrorView,
> {
    if is_error_report(out) {
        error_report(current, json_decoding(out))
    } else {
        match typed_output::<Release>(out) {
            Some(releases) => Ok(offer_from(current, releases)),
            None => Err(ErrorView::MalformedOutput { raw_snippet: snippet(payload(trimmed(out))) }),
        }
    }
}

pub const SET_RELEASES_URL: &'static str = "$ReleasesUrl = ";

pub const SET_RELEASES_URL_BASH: &'static str = "RELEASES_URL=";

/// The command that asks the release service at `releases_url` for the
/// releases.
pub fn check_for_updates_command(releases_url: &str, windows: bool) -> (r: Invocation)
    ensures
        r@ == shell(
            windows,
            SET_RELEASES_URL@ + single_quoted(releases_url@) + THEN@
                + RELEASES_POWERSHELL@,
            SET_RELEASES_URL_BASH@ + bash_quoted(releases_url@) + THEN@
                + RELEASES_BASH@,
        ),
{
    shell_invocation(
        windows,
        String::from_str(SET_RELEASES_URL).concat(
            quote_single(releases_url).as_str(),
        ).concat(THEN).concat(RELEASES_POWERSHELL),
        String::from_str(SET_RELEASES_URL_BASH).concat(
            quote_bash(releases_url).as_str(),
        ).concat(THEN).concat(RELEASES_BASH),
    )
}

/// What a check for updates came to.
pub open spec fn update_check(current: Seq<char>, outcome: Result<ExecutionResult, ErrorKind>) -> Result<
    UpdateCheckView,
    ErrorView,
> {
    match outcome {
        Err(e) => Err(e@),
        Ok(raw) => if !raw.exit_success {
            Err(ErrorView::ExternalToolFailed { stderr: utf8_lossy(raw.stderr@) })
        } else {
            check_result(current, utf8_lossy(raw.stdout@))
        },
    }
}

pub fn check_for_updates_response(current: &str, outcome: Result<ExecutionResult, ErrorKind>) -> (r:
    Result<UpdateCheckResult, ErrorKind>)
    ensures
        yields(r, update_check(current@, outcome)),
{
    match outcome {
        Err(e) => Err(e),
        Ok(raw) => if !raw.exit_success {
            Err(ErrorKind::ExternalToolFailed { stderr: raw.stderr_text() })
        } else {
            let out = raw.stdout_text();
            let chars = chars_of(out.as_str());
            if includes(&chars, &chars_of(MESSAGE_MARK)) && includes(
                &chars,
                &chars_of(DOCUMENTATION_MARK),
            ) {
                weigh_error_report(current, decode(out.as_str()))
            } else {
                match read_output::<Release>(out.as_str()) {
                    Some(releases) => Ok(weigh_releases(current, &releases)),
                    None => Err(
                        ErrorKind::MalformedOutput {
                            raw_snippet: snippet_of(out.as_str()),
                        },
                    ),
                }
            }
        },
    }
}

// ---------------------------------------------------------------------------
// Downloading
// ---------------------------------------------------------------------------

pub const NO_ADDRESS: &'static str = "URL de téléchargement vide";

pub const DOWNLOADED: &'static str = "Téléchargement terminé";

pub const DOWNLOADED_UNREAD: &'static str = "Téléchargement réussi (parsing JSON échoué)";

pub const SET_URL: &'static str = "$UpdateUrl = ";

pub const SET_TEMP_DIR: &'static str = "; $TempDirGiven = ";

pub const SET_DOWNLOAD_PATH: &'static str = "; $DownloadPathGiven = ";

pub const SET_URL_BASH: &'static str = "UPDATE_URL=";

pub const SET_DOWNLOAD_PATH_BASH: &'static str = "; DOWNLOAD_PATH=";

pub const THEN: &'static str = ";";

/// The name of the file that an address names: what follows its last
/// slash.
pub open spec fn file_name_of(url: Seq<char>) -> Seq<char> {
    split(url, '/').last()
}

/// The name under which the download of `update_url` is kept.
pub fn download_file_name(update_url: &str) -> (r: String)
    ensures
        r@ == file_name_of(update_url@),
{
    let pieces = split_on(&chars_of(update_url), '/');
    let last = &pieces[pieces.len() - 1];
    assert(views(pieces@).last() == last@);
    text_of(last)
}

/// The script that downloads for Windows: the three values are set as
/// single-quoted literals, then the script that uses them follows.
pub open spec fn download_script(url: Seq<char>, temp_dir: Seq<char>, path: Seq<char>) -> Seq<char> {
    SET_URL@ + single_quoted(url) + SET_TEMP_DIR@ + single_quoted(
        temp_dir,
    ) + SET_DOWNLOAD_PATH@ + single_quoted(path) + THEN@ + DOWNLOAD_POWERSHELL@
}

/// The script that downloads elsewhere.
pub open spec fn download_script_bash(url: Seq<char>, path: Seq<char>) -> Seq<char> {
    SET_URL_BASH@ + bash_quoted(url) + SET_DOWNLOAD_PATH_BASH@
        + bash_quoted(path) + THEN@ + DOWNLOAD_BASH@
}

/// The command that downloads `update_url` to `download_path` below
/// `temp_dir`; an empty address is refused.
pub fn download_update_command(
    update_url: &str,
    temp_dir: &str,
    download_path: &str,
    windows: bool,
) -> (r: Result<Invocation, ErrorKind>)
    ensures
        match r {
            Ok(invocation) => update_url@.len() > 0 && invocation@ == shell(
                windows,
                download_script(update_url@, temp_dir@, download_path@),
                download_script_bash(update_url@, download_path@),
            ),
            Err(e) => update_url@.len() == 0 && e@ == (ErrorView::InvalidArgument {
                detail: NO_ADDRESS@,
            }),
        },
{
    if chars_of(update_url).len() == 0 {
        return Err(ErrorKind::invalid_argument(NO_ADDRESS));
    }
    let for_windows = String::from_str(SET_URL).concat(
        quote_single(update_url).as_str(),
    ).concat(SET_TEMP_DIR).concat(quote_single(temp_dir).as_str()).concat(
        SET_DOWNLOAD_PATH,
    ).concat(quote_single(download_path).as_str()).concat(THEN).concat(
        DOWNLOAD_POWERSHELL,
    );
    let for_others = String::from_str(SET_URL_BASH).concat(
        quote_bash(update_url).as_str(),
    ).concat(SET_DOWNLOAD_PATH_BASH).concat(
        quote_bash(download_path).as_str(),
    ).concat(THEN).concat(DOWNLOAD_BASH);
    Ok(shell_invocation(windows, for_windows, for_others))
}

/// What a tool reports of what it did.
#[derive(Debug)]
pub struct ToolReport {
    pub success: bool,
    pub message: Option<String>,
    pub restart_required: bool,
}

pub struct ToolReportView {
    pub success: bool,
    pub message: Option<Seq<char>>,
    pub restart_required: bool,
}

impl View for ToolReport {
    type V = ToolReportView;

    open spec fn view(&self) -> ToolReportView {
        ToolReportView {
            success: self.success,
            message: option_text(self.message),
            restart_required: self.restart_required,
        }
    }
}

impl Record for ToolReport {
    /// Any object is a report; what it does not say counts as no.
    open spec fn mapped(tree: JsonTree) -> Option<ToolReportView> {
        if tree is Object {
            Some(
                ToolReportView {
                    success: match bool_at(tree, "Success"@) {
                        Some(b) => b,
                        None => false,
                    },
                    message: text_at(tree, "Message"@),
                    restart_required: match bool_at(tree, "RestartRequired"@) {
                        Some(b) => b,
                        None => false,
                    },
                },
            )
        } else {
            None
        }
    }

    fn map(value: &JsonValue) -> (r: Option<ToolReport>) {
        if !value.is_object() {
            return None;
        }
        Some(
            ToolReport {
                success: match bool_field(value, "Success") {
                    Some(b) => b,
                    None => false,
                },
                message: text_field(value, "Message"),
                restart_required: match bool_field(value, "RestartRequired") {
                    Some(b) => b,
                    None => false,
                },
            },
        )
    }
}

/// The first report in the output of a tool; none where the output
/// cannot be read or holds no report.
pub open spec fn report_in(out: Seq<char>) -> Option<ToolReportView> {
    match typed_output::<ToolReport>(out) {
        Some(reports) => if reports.len() > 0 {
            Some(reports[0])
        } else {
            None
        },
        None => None,
    }
}

fn read_report_in(out: &str) -> (r: Option<ToolReport>)
    ensures
        match r {
            Some(report) => report_in(out@) == Some(report@),
            None => report_in(out@) is None,
        },
{
    match read_output::<ToolReport>(out) {
        Some(mut reports) => if reports.len() > 0 {
            let ghost all = views(reports@);
            let first = reports.remove(0);
            assert(all[0] == first@);
            Some(first)
        } else {
            None
        },
        None => None,
    }
}

/// What a download came to. Where the report of the tool cannot be read,
/// the download counts as done if the file is there.
pub open spec fn download_result(
    outcome: Result<ExecutionResult, ErrorKind>,
    download_path: Seq<char>,
    file_exists: bool,
) -> Result<DownloadView, ErrorView> {
    match outcome {
        Err(e) => Err(e@),
        Ok(raw) => if !raw.exit_success {
            Err(ErrorView::ExternalToolFailed { stderr: utf8_lossy(raw.stderr@) })
        } else {
            match report_in(utf8_lossy(raw.stdout@)) {
                Some(report) => Ok(
                    DownloadView {
                        success: report.success,
                        file_path: download_path,
                        message: match report.message {
                            Some(m) => m,
                            None => DOWNLOADED@,
                        },
                    },
                ),
                None => if file_exists {
                    Ok(
                        DownloadView {
                            success: true,
                            file_path: download_path,
                            message: DOWNLOADED_UNREAD@,
                        },
                    )
                } else {
                    Err(
                        ErrorView::MalformedOutput {
                            raw_snippet: snippet(payload(trimmed(utf8_lossy(raw.stdout@)))),
                        },
                    )
                },
            }
        },
    }
}

pub fn download_update_response(
    outcome: Result<ExecutionResult, ErrorKind>,
    download_path: &str,
    file_exists: bool,
) -> (r: Result<DownloadResult, ErrorKind>)
    ensures
        yields(r, download_result(outcome, download_path@, file_exists)),
{
    match outcome {
        Err(e) => Err(e),
        Ok(raw) => if !raw.exit_success {
            Err(ErrorKind::ExternalToolFailed { stderr: raw.stderr_text() })
        } else {
            let out = raw.stdout_text();
            match read_report_in(out.as_str()) {
                Some(report) => Ok(
                    DownloadResult {
                        success: report.success,
                        file_path: String::from_str(download_path),
                        message: match report.message {
                            Some(m) => m,
                            None => String::from_str(DOWNLOADED),
                        },
                    },
                ),
                None => if file_exists {
                    Ok(
                        DownloadResult {
                            success: true,
                            file_path: String::from_str(download_path),
                            message: String::from_str(DOWNLOADED_UNREAD),
                        },
                    )
                } else {
                    Err(
                        ErrorKind::MalformedOutput {
                            raw_snippet: snippet_of(out.as_str()),
                        },
                    )
                },
            }
        },
    }
}

// ---------------------------------------------------------------------------
// Installing
// ---------------------------------------------------------------------------

pub const NO_FILE: &'static str = "Le fichier de mise à jour n'existe pas: ";

pub const BAD_TYPE: &'static str = "Type de fichier non pris en charge: ";

pub const INSTALLED: &'static str = "Installation terminée";

pub const MSI: &'static str = "msi";

pub const EXE: &'static str = "exe";

pub const SET_FILE_PATH: &'static str = "$FilePathGiven = ";

pub const SET_FILE_PATH_BASH: &'static str = "FILE_PATH=";

/// The position of the last character of `s` for which `mark` holds, or
/// -1.
pub open spec fn last_where(s: Seq<char>, mark: spec_fn(char) -> bool) -> int
    decreases s.len(),
{
    if s.len() == 0 {
        -1
    } else if mark(s.last()) {
        s.len() - 1
    } else {
        last_where(s.drop_last(), mark)
    }
}

pub open spec fn is_separator(c: char) -> bool {
    c == '/' || c == '\\'
}

pub open spec fn is_point(c: char) -> bool {
    c == '.'
}

/// The extension of the file that a path names, in lower case: what
/// follows the last point of the name, where the name does not start with
/// that point; nothing where the name has no such point.
pub open spec fn extension_of(path: Seq<char>) -> Seq<char> {
    let point = last_where(path, |c: char| is_point(c));
    let separator = last_where(path, |c: char| is_separator(c));
    if point > separator + 1 {
        lowercase(path.subrange(point + 1, path.len() as int))
    } else {
        lowercase(Seq::empty())
    }
}

proof fn lemma_last_where_is(s: Seq<char>, mark: spec_fn(char) -> bool, k: int)
    requires
        -1 <= k < s.len(),
        forall|i: int| k < i < s.len() ==> !mark(#[trigger] s[i]),
        k >= 0 ==> mark(s[k]),
    ensures
        last_where(s, mark) == k,
    decreases s.len(),
{
    if s.len() > 0 && k < s.len() - 1 {
        let t = s.drop_last();
        assert(!mark(s[s.len() - 1]));
        assert forall|i: int| k < i < t.len() implies !mark(#[trigger] t[i]) by {
            assert(t[i] == s[i]);
        }
        if k >= 0 {
            assert(t[k] == s[k]);
        }
        lemma_last_where_is(t, mark, k);
    }
}

/// The extension of the file that a path names, in lower case.
pub fn file_extension(path: &str) -> (r: String)
    ensures
        r@ == extension_of(path@),
{
    let v = chars_of(path);
    let mut p: usize = v.len();
    while p > 0 && v[p - 1] != '.'
        invariant
            p <= v.len(),
            forall|i: int| p <= i < v.len() ==> !is_point(#[trigger] v@[i]),
        decreases p,
    {
        p -= 1;
    }
    let mut q: usize = v.len();
    while q > 0 && !(v[q - 1] == '/' || v[q - 1] == '\\')
        invariant
            q <= v.len(),
            forall|i: int| q <= i < v.len() ==> !is_separator(#[trigger] v@[i]),
        decreases q,
    {
        q -= 1;
    }
    proof {
        lemma_last_where_is(v@, |c: char| is_point(c), p - 1);
        lemma_last_where_is(v@, |c: char| is_separator(c), q - 1);
    }
    let tail = if p > q && p - q > 1 {
        slice_of(&v, p, v.len())
    } else {
        Vec::new()
    };
    assert((p > q && p - q > 1) || tail@ =~= Seq::<char>::empty());
    text_of(&lower(&tail))
}

/// The command that installs the file at `file_path`, or why there is
/// none: the file is not there, or its extension names no installer.
pub open spec fn install_command(file_path: Seq<char>, file_exists: bool, windows: bool) -> Result<
    InvocationView,
    ErrorView,
> {
    if !file_exists {
        Err(ErrorView::Unavailable { detail: NO_FILE@ + file_path })
    } else if extension_of(file_path) == MSI@ {
        Ok(
            shell(
                windows,
                SET_FILE_PATH@ + single_quoted(file_path) + THEN@
                    + INSTALL_MSI_POWERSHELL@,
                SET_FILE_PATH_BASH@ + bash_quoted(file_path) + THEN@
                    + INSTALL_MSI_BASH@,
            ),
        )
    } else if extension_of(file_path) == EXE@ {
        Ok(
            shell(
                windows,
                SET_FILE_PATH@ + single_quoted(file_path) + THEN@
                    + INSTALL_EXE_POWERSHELL@,
                SET_FILE_PATH_BASH@ + bash_quoted(file_path) + THEN@
                    + INSTALL_EXE_BASH@,
            ),
        )
    } else {
        Err(ErrorView::InvalidArgument { detail: BAD_TYPE@ + extension_of(file_path) })
    }
}

pub fn install_update_command(file_path: &str, file_exists: bool, windows: bool) -> (r: Result<
    Invocation,
    ErrorKind,
>)
    ensures
        builds(r, install_command(file_path@, file_exists, windows)),
{
    if !file_exists {
        return Err(ErrorKind::Unavailable { detail: String::from_str(NO_FILE).concat(file_path) });
    }
    let extension = file_extension(file_path);
    let msi = same_text(extension.as_str(), MSI);
    let exe = same_text(extension.as_str(), EXE);
    if !msi && !exe {
        return Err(
            ErrorKind::InvalidArgument {
                detail: String::from_str(BAD_TYPE).concat(extension.as_str()),
            },
        );
    }
    let for_windows = String::from_str(SET_FILE_PATH).concat(
        quote_single(file_path).as_str(),
    ).concat(THEN).concat(
        if msi {
            INSTALL_MSI_POWERSHELL
        } else {
            INSTALL_EXE_POWERSHELL
        },
    );
    let for_others = String::from_str(SET_FILE_PATH_BASH).concat(
        quote_bash(file_path).as_str(),
    ).concat(THEN).concat(
        if msi {
            INSTALL_MSI_BASH
        } else {
            INSTALL_EXE_BASH
        },
    );
    Ok(shell_invocation(windows, for_windows, for_others))
}

/// What an installation came to.
pub open spec fn install_result(outcome: Result<ExecutionResult, ErrorKind>) -> Result<
    InstallView,
    ErrorView,
> {
    match outcome {
        Err(e) => Err(e@),
        Ok(raw) => if !raw.exit_success {
            Err(ErrorView::ExternalToolFailed { stderr: utf8_lossy(raw.stderr@) })
        } else {
            match report_in(utf8_lossy(raw.stdout@)) {
                Some(report) => Ok(
                    InstallView {
                        success: report.success,
                        message: match report.message {
                            Some(m) => m,
                            None => INSTALLED@,
                        },
                        restart_required: report.restart_required,
                    },
                ),
                None => Err(
                    ErrorView::MalformedOutput {
                        raw_snippet: snippet(payload(trimmed(utf8_lossy(raw.stdout@)))),
                    },
                ),
            }
        },
    }
}

pub fn install_update_response(outcome: Result<ExecutionResult, ErrorKind>) -> (r: Result<
    InstallResult,
    ErrorKind,
>)
    ensures
        yields(r, install_result(outcome)),
{
    match outcome {
        Err(e) => Err(e),
        Ok(raw) => if !raw.exit_success {
            Err(ErrorKind::ExternalToolFailed { stderr: raw.stderr_text() })
        } else {
            let out = raw.stdout_text();
            match read_report_in(out.as_str()) {
                Some(report) => Ok(
                    InstallResult {
                        success: report.success,
                        message: match report.message {
                            Some(m) => m,
                            None => String::from_str(INSTALLED),
                        },
                        restart_required: report.restart_required,
                    },
                ),
                None => Err(
                    ErrorKind::MalformedOutput {
                        raw_snippet: snippet_of(out.as_str()),
                    },
                ),
            }
        },
    }
}

// ---------------------------------------------------------------------------
// Starting again
// ---------------------------------------------------------------------------

/// The command that schedules a new start of the application.
pub fn restart_app_command(windows: bool) -> (r: Invocation)
    ensures
        r@ == shell(windows, RESTART_POWERSHELL@, RESTART_BASH@),
{
    shell_invocation(windows, String::from_str(RESTART_POWERSHELL), String::from_str(RESTART_BASH))
}

/// What scheduling the new start came to; where it succeeded, the caller
/// ends the application.
pub fn restart_app_response(outcome: Result<ExecutionResult, ErrorKind>) -> (r: Result<
    (),
    ErrorKind,
>)
    ensures
        yields_unit(r, acknowledged(outcome)),
{
    acknowledge(outcome)
}

} // verus!
